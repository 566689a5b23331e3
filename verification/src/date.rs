//! Dates in the form that IMAP searches take.

use vstd::prelude::*;

use crate::decimal::{
    all_digits, digit, digits_value, is_digit, numeral, numeral_reads_back, read_decimal, reading,
    reading_accepts_numerals, unsigned, DecimalError,
};
use crate::text::{
    characters, is_white_space, one_more_piece, pieces, single_piece, split, trim,
    trim_start_matches, trimmed, trimmed_back, trimmed_front,
};

verus! {

/// Why a date was not accepted.
#[derive(Clone, Copy, Debug, PartialEq, Eq, Structural)]
pub enum DateError {
    /// The text does not consist of three parts.
    InvalidDate,
    /// The second part is no number.
    InvalidMonth,
    /// No month has the number in the second part.
    MonthOutOfRange,
}

/// The message of a date error.
pub open spec fn date_error_text(error: DateError) -> Seq<char> {
    match error {
        DateError::InvalidDate => "invalid date"@,
        DateError::InvalidMonth => "invalid month"@,
        DateError::MonthOutOfRange => "month out of range"@,
    }
}

impl DateError {
    /// The message of this error.
    pub fn message(&self) -> (text: String)
        ensures
            text@ == date_error_text(*self),
    {
        match self {
            DateError::InvalidDate => "invalid date".to_string(),
            DateError::InvalidMonth => "invalid month".to_string(),
            DateError::MonthOutOfRange => "month out of range".to_string(),
        }
    }
}

/// The English short name of month `n`, the first being January.
pub open spec fn month_name(n: nat) -> Seq<char> {
    if n == 1 {
        "Jan"@
    } else if n == 2 {
        "Feb"@
    } else if n == 3 {
        "Mar"@
    } else if n == 4 {
        "Apr"@
    } else if n == 5 {
        "May"@
    } else if n == 6 {
        "Jun"@
    } else if n == 7 {
        "Jul"@
    } else if n == 8 {
        "Aug"@
    } else if n == 9 {
        "Sep"@
    } else if n == 10 {
        "Oct"@
    } else if n == 11 {
        "Nov"@
    } else {
        "Dec"@
    }
}

/// The day as IMAP writes it: no leading zeros, and no white space round what is left.
pub open spec fn day_text(part: Seq<char>) -> Seq<char> {
    trimmed(trimmed_front(part, |c: char| c == '0'))
}

/// The IMAP form of the date `date`, whose parts are year, month and day, with `-` between them.
/// The month is a number; year and day are taken as they stand, but for `day_text`.
pub open spec fn imap_date(date: Seq<char>) -> Result<Seq<char>, DateError> {
    let parts = pieces(date, '-');
    if parts.len() != 3 {
        Err(DateError::InvalidDate)
    } else {
        match reading(parts[1], usize::MAX as nat) {
            Err(_) => Err(DateError::InvalidMonth),
            Ok(month) => if 1 <= month <= 12 {
                Ok(day_text(parts[2]) + "-"@ + month_name(month) + "-"@ + parts[0])
            } else {
                Err(DateError::MonthOutOfRange)
            },
        }
    }
}

/// The English short name of month `n`.
fn month_text(n: u64) -> (s: &'static str)
    requires
        1 <= n <= 12,
    ensures
        s@ == month_name(n as nat),
{
    if n == 1 {
        "Jan"
    } else if n == 2 {
        "Feb"
    } else if n == 3 {
        "Mar"
    } else if n == 4 {
        "Apr"
    } else if n == 5 {
        "May"
    } else if n == 6 {
        "Jun"
    } else if n == 7 {
        "Jul"
    } else if n == 8 {
        "Aug"
    } else if n == 9 {
        "Sep"
    } else if n == 10 {
        "Oct"
    } else if n == 11 {
        "Nov"
    } else {
        "Dec"
    }
}

/// Rewrites a date such as `2026-01-15` as `15-Jan-2026`, the form that `SEARCH SINCE` takes.
pub fn parse_imap_date(date: &str) -> (result: Result<String, DateError>)
    ensures
        match result {
            Ok(text) => imap_date(date@) == Ok::<Seq<char>, DateError>(text@),
            Err(error) => imap_date(date@) == Err::<Seq<char>, DateError>(error),
        },
{
    let parts: Vec<&str> = split(date, '-');
    if parts.len() != 3 {
        return Err(DateError::InvalidDate);
    }
    assert(parts@[0]@ == pieces(date@, '-')[0]);
    assert(parts@[1]@ == pieces(date@, '-')[1]);
    assert(parts@[2]@ == pieces(date@, '-')[2]);
    match read_decimal(parts[1], usize::MAX as u64) {
        Err(_) => Err(DateError::InvalidMonth),
        Ok(month) => {
            if month < 1 || month > 12 {
                return Err(DateError::MonthOutOfRange);
            }
            let mut text: String = trim(trim_start_matches(parts[2], '0')).to_string();
            text.append("-");
            text.append(month_text(month));
            text.append("-");
            text.append(parts[0]);
            Ok(text)
        },
    }
}

/// Whether `date` has the form YYYY-MM-DD: four, two and two digits, with `-` between them.
pub open spec fn is_calendar_form(date: Seq<char>) -> bool {
    &&& date.len() == 10
    &&& forall|i: int|
        0 <= i < 10 ==> if i == 4 || i == 7 {
            #[trigger] date[i] == '-'
        } else {
            is_digit(date[i])
        }
}

/// The number of the month in a date of the form YYYY-MM-DD.
pub open spec fn month_number(date: Seq<char>) -> nat {
    digits_value(date.subrange(5, 7))
}

/// Whether a date has the form YYYY-MM-DD.
pub fn has_calendar_form(date: &str) -> (fits: bool)
    ensures
        fits == is_calendar_form(date@),
{
    let chars: Vec<char> = characters(date);
    if chars.len() != 10 {
        return false;
    }
    let mut i: usize = 0;
    while i < 10
        invariant
            i <= 10,
            chars@.len() == 10,
            chars@ == date@,
            forall|j: int|
                0 <= j < i ==> if j == 4 || j == 7 {
                    #[trigger] date@[j] == '-'
                } else {
                    is_digit(date@[j])
                },
        decreases 10 - i,
    {
        let c: char = chars[i];
        let fits: bool = if i == 4 || i == 7 {
            c == '-'
        } else {
            '0' <= c && c <= '9'
        };
        if !fits {
            assert(date@[i as int] == c);
            return false;
        }
        i += 1;
    }
    true
}

/// The two digits of a number below one hundred.
pub open spec fn two_digits(n: nat) -> Seq<char> {
    seq![digit(n / 10), digit(n % 10)]
}

proof fn two_digits_read(n: nat)
    requires
        n < 100,
    ensures
        reading(two_digits(n), usize::MAX as nat) == Ok::<nat, DecimalError>(n),
        !two_digits(n).contains('-'),
{
    let s = two_digits(n);
    assert(is_digit(s[0]) && is_digit(s[1]));
    assert(unsigned(s) == s);
    assert(all_digits(s));
    reveal_with_fuel(digits_value, 3);
    assert(s.drop_last() == seq![digit(n / 10)]);
    assert(s.drop_last().drop_last() == Seq::<char>::empty());
    assert(digits_value(s) == n);
    reading_accepts_numerals(s, usize::MAX as nat);
}

proof fn two_digit_day(n: nat)
    requires
        1 <= n < 100,
    ensures
        day_text(two_digits(n)) == numeral(n),
{
    let s = two_digits(n);
    let zero = |c: char| c == '0';
    let white = |c: char| is_white_space(c);
    reveal_with_fuel(trimmed_front, 3);
    reveal_with_fuel(trimmed_back, 2);
    reveal_with_fuel(numeral, 2);
    assert(s[0] == digit(n / 10) && s[1] == digit(n % 10));
    assert(s.drop_first() == seq![digit(n % 10)]);
    assert(trimmed_front(s, zero) == numeral(n));
    numeral_reads_back(n, n);
    assert(is_digit(numeral(n)[0]));
    assert(is_digit(numeral(n)[numeral(n).len() - 1]));
    assert(trimmed_front(numeral(n), white) == numeral(n));
    assert(trimmed_back(numeral(n), white) == numeral(n));
}

/// A date in the form year, two-digit month, two-digit day is accepted, and comes out as day
/// without leading zero, month name and year.
pub proof fn calendar_date_is_rewritten(year: Seq<char>, month: nat, day: nat)
    requires
        !year.contains('-'),
        1 <= month <= 12,
        1 <= day <= 31,
    ensures
        imap_date(year + seq!['-'] + two_digits(month) + seq!['-'] + two_digits(day)) == Ok::<
            Seq<char>,
            DateError,
        >(numeral(day) + "-"@ + month_name(month) + "-"@ + year),
{
    two_digits_read(month);
    two_digits_read(day);
    two_digit_day(day);
    single_piece(year, '-');
    one_more_piece(year, '-', two_digits(month));
    one_more_piece(year + seq!['-'] + two_digits(month), '-', two_digits(day));
}

/// A date of the form YYYY-MM-DD is accepted exactly where its month is one of the twelve; it
/// comes out as day without leading zeros, month name and year.
pub proof fn calendar_form_is_rewritten(date: Seq<char>)
    requires
        is_calendar_form(date),
    ensures
        imap_date(date) == if 1 <= month_number(date) <= 12 {
            Ok::<Seq<char>, DateError>(
                day_text(date.subrange(8, 10)) + "-"@ + month_name(month_number(date)) + "-"@
                    + date.subrange(0, 4),
            )
        } else {
            Err::<Seq<char>, DateError>(DateError::MonthOutOfRange)
        },
{
    let year = date.subrange(0, 4);
    let month = date.subrange(5, 7);
    let day = date.subrange(8, 10);
    assert(date[4] == '-' && date[7] == '-');
    assert(date =~= year + seq!['-'] + month + seq!['-'] + day);
    assert forall|i: int| 0 <= i < year.len() implies year[i] != '-' by {
        assert(is_digit(date[i]));
    }
    assert forall|i: int| 0 <= i < month.len() implies is_digit(#[trigger] month[i]) by {
        assert(is_digit(date[i + 5]));
    }
    assert forall|i: int| 0 <= i < day.len() implies day[i] != '-' by {
        assert(is_digit(date[i + 8]));
    }
    single_piece(year, '-');
    one_more_piece(year, '-', month);
    one_more_piece(year + seq!['-'] + month, '-', day);
    assert(is_digit(month[0]) && is_digit(month[1]));
    assert(unsigned(month) == month);
    reveal_with_fuel(digits_value, 3);
    assert(month.drop_last().drop_last() == Seq::<char>::empty());
    assert(month_number(date) < 100);
    reading_accepts_numerals(month, usize::MAX as nat);
}

/// The short names of the months stand one behind the other, three letters each, in the row of
/// all of them.
pub proof fn months_in_their_order(n: nat)
    requires
        1 <= n <= 12,
    ensures
        month_name(n) == "JanFebMarAprMayJunJulAugSepOctNovDec"@.subrange(3 * n - 3, 3 * n as int),
{
    reveal_strlit("JanFebMarAprMayJunJulAugSepOctNovDec");
    reveal_strlit("Jan");
    reveal_strlit("Feb");
    reveal_strlit("Mar");
    reveal_strlit("Apr");
    reveal_strlit("May");
    reveal_strlit("Jun");
    reveal_strlit("Jul");
    reveal_strlit("Aug");
    reveal_strlit("Sep");
    reveal_strlit("Oct");
    reveal_strlit("Nov");
    reveal_strlit("Dec");
    assert(month_name(n) =~= "JanFebMarAprMayJunJulAugSepOctNovDec"@.subrange(
        3 * n - 3,
        3 * n as int,
    ));
}

/// Of three parts with a `-` between them, the second has to be the number of a month. The date
/// then comes out as the third part, trimmed of zeros in front and then of white space, the name
/// of the month, and the first part as it stands. Any other number of parts is no date.
pub proof fn parts_of_a_date_change_places(year: Seq<char>, month: Seq<char>, day: Seq<char>)
    requires
        !year.contains('-'),
        !month.contains('-'),
        !day.contains('-'),
    ensures
        ({
            let date = year + seq!['-'] + month + seq!['-'] + day;
            let number = reading(month, usize::MAX as nat);
            &&& number is Err <==> imap_date(date) == Err::<Seq<char>, DateError>(
                DateError::InvalidMonth,
            )
            &&& number is Ok && !(1 <= number->Ok_0 <= 12) <==> imap_date(date) == Err::<
                Seq<char>,
                DateError,
            >(DateError::MonthOutOfRange)
            &&& number is Ok && 1 <= number->Ok_0 <= 12 ==> imap_date(date) == Ok::<
                Seq<char>,
                DateError,
            >(
                trimmed(trimmed_front(day, |c: char| c == '0')) + "-"@ + month_name(number->Ok_0)
                    + "-"@ + year,
            )
        }),
{
    single_piece(year, '-');
    one_more_piece(year, '-', month);
    one_more_piece(year + seq!['-'] + month, '-', day);
}

/// A text that does not split at `-` into three parts is no date, and only such a text is
/// reported as none.
pub proof fn dates_have_three_parts(date: Seq<char>)
    ensures
        imap_date(date) == Err::<Seq<char>, DateError>(DateError::InvalidDate) <==> pieces(
            date,
            '-',
        ).len() != 3,
{
}

/// A text has the form YYYY-MM-DD exactly where it is four digits, `-`, two digits, `-` and two
/// digits; the number of its month is ten times the first of the two middle digits and the
/// second.
pub proof fn calendar_form_by_its_parts(date: Seq<char>)
    ensures
        is_calendar_form(date) <==> {
            &&& date.len() == 10
            &&& all_digits(date.subrange(0, 4))
            &&& date[4] == '-'
            &&& all_digits(date.subrange(5, 7))
            &&& date[7] == '-'
            &&& all_digits(date.subrange(8, 10))
        },
        is_calendar_form(date) ==> month_number(date) == 10 * (date[5] as int - 48) + (
        date[6] as int - 48),
{
    if is_calendar_form(date) {
        assert(date[4] == '-' && date[7] == '-');
        assert forall|i: int| 0 <= i < 4 implies is_digit(#[trigger] date.subrange(0, 4)[i]) by {
            assert(is_digit(date[i]));
        }
        assert forall|i: int| 0 <= i < 2 implies is_digit(#[trigger] date.subrange(5, 7)[i]) by {
            assert(is_digit(date[i + 5]));
        }
        assert forall|i: int| 0 <= i < 2 implies is_digit(#[trigger] date.subrange(8, 10)[i]) by {
            assert(is_digit(date[i + 8]));
        }
        let month = date.subrange(5, 7);
        reveal_with_fuel(digits_value, 3);
        assert(month.drop_last().drop_last() =~= Seq::<char>::empty());
        assert(is_digit(month[0]) && is_digit(month[1]));
    }
    if date.len() == 10 && all_digits(date.subrange(0, 4)) && date[4] == '-' && all_digits(
        date.subrange(5, 7),
    ) && date[7] == '-' && all_digits(date.subrange(8, 10)) {
        assert forall|i: int| 0 <= i < 10 implies if i == 4 || i == 7 {
            #[trigger] date[i] == '-'
        } else {
            is_digit(date[i])
        } by {
            if i < 4 {
                assert(is_digit(date.subrange(0, 4)[i]));
            } else if 4 < i < 7 {
                assert(is_digit(date.subrange(5, 7)[i - 5]));
            } else if 7 < i {
                assert(is_digit(date.subrange(8, 10)[i - 8]));
            }
        }
    }
}

/// Each date error says what is wrong.
pub proof fn date_errors_say_what_is_wrong(error: DateError)
    ensures
        error == DateError::InvalidDate ==> date_error_text(error) == "invalid date"@,
        error == DateError::InvalidMonth ==> date_error_text(error) == "invalid month"@,
        error == DateError::MonthOutOfRange ==> date_error_text(error) == "month out of range"@,
{
}

} // verus!
