//! Upper and lower case of whole texts.

use vstd::prelude::*;
use vstd::utf8::is_ascii_chars;

verus! {

/// The lower-case form of a text, by the Unicode tables of the standard library.
pub uninterp spec fn lowercase(s: Seq<char>) -> Seq<char>;

/// The upper-case form of a text, by the Unicode tables of the standard library.
pub uninterp spec fn uppercase(s: Seq<char>) -> Seq<char>;

/// The lower-case form of an ASCII character.
pub open spec fn ascii_lower(c: char) -> char {
    if 'A' <= c <= 'Z' {
        (c as int - 'A' as int + 'a' as int) as char
    } else {
        c
    }
}

/// The upper-case form of an ASCII character.
pub open spec fn ascii_upper(c: char) -> char {
    if 'a' <= c <= 'z' {
        (c as int - 'a' as int + 'A' as int) as char
    } else {
        c
    }
}

/// `s` with each ASCII letter in lower case.
pub open spec fn ascii_lowered(s: Seq<char>) -> Seq<char> {
    Seq::new(s.len(), |i: int| ascii_lower(s[i]))
}

/// `s` with each ASCII letter in upper case.
pub open spec fn ascii_uppered(s: Seq<char>) -> Seq<char> {
    Seq::new(s.len(), |i: int| ascii_upper(s[i]))
}

/// `str::to_lowercase` of the standard library. Its result depends on the text alone; of an
/// ASCII text only the letters `A` to `Z` change, each to its lower-case letter.
pub assume_specification[ str::to_lowercase ](s: &str) -> (lower: String)
    ensures
        lower@ == lowercase(s@),
        is_ascii_chars(s@) ==> lower@ == ascii_lowered(s@),
;

/// `str::to_uppercase` of the standard library. Its result depends on the text alone; of an
/// ASCII text only the letters `a` to `z` change, each to its upper-case letter.
pub assume_specification[ str::to_uppercase ](s: &str) -> (upper: String)
    ensures
        upper@ == uppercase(s@),
        is_ascii_chars(s@) ==> upper@ == ascii_uppered(s@),
;

/// Whether `s` is ASCII text without lower-case letters.
pub open spec fn is_ascii_upper(s: Seq<char>) -> bool {
    is_ascii_chars(s) && forall|i: int| 0 <= i < s.len() ==> !('a' <= #[trigger] s[i] <= 'z')
}

/// ASCII text stays ASCII in lower case.
pub proof fn lower_case_is_ascii(s: Seq<char>)
    requires
        is_ascii_chars(s),
    ensures
        is_ascii_chars(ascii_lowered(s)),
{
    let low = ascii_lowered(s);
    assert forall|i: int| 0 <= i < low.len() implies '\u{0}' <= #[trigger] low[i] <= '\u{7f}' by {
        assert('\u{0}' <= s[i] <= '\u{7f}');
    }
}

/// ASCII text without lower-case letters comes back from lower case unchanged.
pub proof fn upper_case_comes_back(s: Seq<char>)
    requires
        is_ascii_upper(s),
    ensures
        ascii_uppered(ascii_lowered(s)) == s,
{
    let low = ascii_lowered(s);
    assert forall|i: int| 0 <= i < s.len() implies ascii_upper(#[trigger] low[i]) == s[i] by {
        assert(low[i] == ascii_lower(s[i]));
        assert(!('a' <= s[i] <= 'z'));
    }
    assert(ascii_uppered(low) =~= s);
}

/// Case goes character by character: the letters `A` to `Z` (65 to 90) and `a` to `z` (97 to 122)
/// are 32 code points apart, and every other character stays.
pub proof fn case_goes_letter_by_letter(s: Seq<char>, i: int)
    requires
        0 <= i < s.len(),
    ensures
        ascii_lowered(s).len() == s.len(),
        ascii_uppered(s).len() == s.len(),
        65 <= s[i] as int <= 90 ==> ascii_lowered(s)[i] as int == s[i] as int + 32,
        !(65 <= s[i] as int <= 90) ==> ascii_lowered(s)[i] == s[i],
        97 <= s[i] as int <= 122 ==> ascii_uppered(s)[i] as int == s[i] as int - 32,
        !(97 <= s[i] as int <= 122) ==> ascii_uppered(s)[i] == s[i],
{
}

} // verus!
