//! Text as sequences of characters: comparing, cutting, splitting, trimming and joining.

use vstd::prelude::*;
use vstd::utf8::*;

verus! {

/// The texts that a list of strings holds.
pub open spec fn texts(list: Seq<String>) -> Seq<Seq<char>> {
    Seq::new(list.len(), |i: int| list[i]@)
}

/// The text of an optional string.
pub open spec fn optional_text(s: Option<String>) -> Option<Seq<char>> {
    match s {
        Some(s) => Some(s@),
        None => None,
    }
}

/// The names and values of a list of pairs.
pub open spec fn pairs(list: Seq<(String, String)>) -> Seq<(Seq<char>, Seq<char>)> {
    Seq::new(list.len(), |i: int| (list[i].0@, list[i].1@))
}

/// What is left of `s` behind `prefix`, where `s` starts with it.
pub open spec fn without_prefix(s: Seq<char>, prefix: Seq<char>) -> Option<Seq<char>> {
    if prefix.is_prefix_of(s) {
        Some(s.skip(prefix.len() as int))
    } else {
        None
    }
}

/// What is left of `s` in front of `suffix`, where `s` ends with it.
pub open spec fn without_suffix(s: Seq<char>, suffix: Seq<char>) -> Option<Seq<char>> {
    if suffix.is_suffix_of(s) {
        Some(s.take(s.len() - suffix.len()))
    } else {
        None
    }
}

/// The pieces of `s` between the occurrences of `sep`, empty ones included.
pub open spec fn pieces(s: Seq<char>, sep: char) -> Seq<Seq<char>>
    decreases s.len(),
{
    if s.len() == 0 {
        seq![s]
    } else {
        let before = pieces(s.drop_last(), sep);
        if s.last() == sep {
            before.push(Seq::empty())
        } else {
            before.drop_last().push(before.last().push(s.last()))
        }
    }
}

/// The texts of `list`, one behind the other, with `sep` between neighbours.
pub open spec fn joined(list: Seq<Seq<char>>, sep: Seq<char>) -> Seq<char>
    decreases list.len(),
{
    if list.len() == 0 {
        Seq::empty()
    } else if list.len() == 1 {
        list[0]
    } else {
        joined(list.drop_last(), sep) + sep + list.last()
    }
}

/// The characters with the Unicode property White_Space.
pub open spec fn is_white_space(c: char) -> bool {
    ||| '\u{9}' <= c <= '\u{d}'
    ||| c == ' '
    ||| c == '\u{85}'
    ||| c == '\u{a0}'
    ||| c == '\u{1680}'
    ||| '\u{2000}' <= c <= '\u{200a}'
    ||| c == '\u{2028}'
    ||| c == '\u{2029}'
    ||| c == '\u{202f}'
    ||| c == '\u{205f}'
    ||| c == '\u{3000}'
}

/// `s` without the characters at its start that satisfy `drop`.
pub open spec fn trimmed_front(s: Seq<char>, drop: spec_fn(char) -> bool) -> Seq<char>
    decreases s.len(),
{
    if s.len() > 0 && drop(s[0]) {
        trimmed_front(s.drop_first(), drop)
    } else {
        s
    }
}

/// `s` without the characters at its end that satisfy `drop`.
pub open spec fn trimmed_back(s: Seq<char>, drop: spec_fn(char) -> bool) -> Seq<char>
    decreases s.len(),
{
    if s.len() > 0 && drop(s.last()) {
        trimmed_back(s.drop_last(), drop)
    } else {
        s
    }
}

/// `s` without white space at its two ends.
pub open spec fn trimmed(s: Seq<char>) -> Seq<char> {
    trimmed_back(trimmed_front(s, |c: char| is_white_space(c)), |c: char| is_white_space(c))
}

/// The characters of `s`, as a list.
pub fn characters(s: &str) -> (list: Vec<char>)
    ensures
        list@ == s@,
{
    let mut list: Vec<char> = Vec::new();
    for c in it: s.chars()
        invariant
            it.seq() == s@,
            list@ == s@.take(it.index() as int),
    {
        list.push(c);
    }
    assert(s@.take(s@.len() as int) == s@);
    list
}

/// Whether two byte strings are the same.
pub fn same_bytes(a: &[u8], b: &[u8]) -> (same: bool)
    ensures
        same == (a@ == b@),
{
    if a.len() != b.len() {
        return false;
    }
    let mut i: usize = 0;
    while i < a.len()
        invariant
            i <= a.len(),
            a.len() == b.len(),
            a@.take(i as int) == b@.take(i as int),
        decreases a.len() - i,
    {
        if a[i] != b[i] {
            return false;
        }
        assert(a@.take(i + 1) == a@.take(i as int).push(a@[i as int]));
        assert(b@.take(i + 1) == b@.take(i as int).push(b@[i as int]));
        i += 1;
    }
    assert(a@.take(a@.len() as int) == a@);
    assert(b@.take(b@.len() as int) == b@);
    true
}

/// Whether two texts are the same.
pub fn same_text(a: &str, b: &str) -> (same: bool)
    ensures
        same == (a@ == b@),
{
    proof {
        encode_utf8_decode_utf8(a@);
        encode_utf8_decode_utf8(b@);
    }
    same_bytes(a.as_bytes(), b.as_bytes())
}

/// Cuts `prefix` off the start of `s`.
pub fn strip_prefix<'a>(s: &'a str, prefix: &str) -> (rest: Option<&'a str>)
    ensures
        match rest {
            Some(rest) => without_prefix(s@, prefix@) == Some(rest@),
            None => without_prefix(s@, prefix@) is None,
        },
{
    let size: usize = s.unicode_len();
    let cut: usize = prefix.unicode_len();
    if cut > size {
        return None;
    }
    if same_text(s.substring_char(0, cut), prefix) {
        Some(s.substring_char(cut, size))
    } else {
        None
    }
}

/// Cuts `suffix` off the end of `s`.
pub fn strip_suffix<'a>(s: &'a str, suffix: &str) -> (rest: Option<&'a str>)
    ensures
        match rest {
            Some(rest) => without_suffix(s@, suffix@) == Some(rest@),
            None => without_suffix(s@, suffix@) is None,
        },
{
    let size: usize = s.unicode_len();
    let cut: usize = suffix.unicode_len();
    if cut > size {
        return None;
    }
    if same_text(s.substring_char(size - cut, size), suffix) {
        Some(s.substring_char(0, size - cut))
    } else {
        None
    }
}

/// Splits `s` at each `sep`.
pub fn split<'a>(s: &'a str, sep: char) -> (list: Vec<&'a str>)
    ensures
        list@.len() == pieces(s@, sep).len(),
        forall|i: int| 0 <= i < list@.len() ==> (#[trigger] list@[i])@ == pieces(s@, sep)[i],
{
    let chars: Vec<char> = characters(s);
    let mut list: Vec<&'a str> = Vec::new();
    let mut start: usize = 0;
    let mut i: usize = 0;
    while i < chars.len()
        invariant
            chars@ == s@,
            start <= i <= chars.len(),
            pieces(s@.take(i as int), sep).len() == list@.len() + 1,
            pieces(s@.take(i as int), sep).last() == s@.subrange(start as int, i as int),
            forall|j: int|
                0 <= j < list@.len() ==> (#[trigger] list@[j])@ == pieces(
                    s@.take(i as int),
                    sep,
                )[j],
        decreases chars.len() - i,
    {
        assert(s@.take(i + 1).drop_last() == s@.take(i as int));
        if chars[i] == sep {
            list.push(s.substring_char(start, i));
            start = i + 1;
            assert(s@.subrange(start as int, i + 1) == Seq::<char>::empty());
        } else {
            assert(s@.subrange(start as int, i + 1) == s@.subrange(start as int, i as int).push(
                s@[i as int],
            ));
        }
        i += 1;
    }
    assert(s@.take(chars@.len() as int) == s@);
    list.push(s.substring_char(start, chars.len()));
    list
}

/// Whether `c` has the Unicode property White_Space.
pub fn white_space(c: char) -> (yes: bool)
    ensures
        yes == is_white_space(c),
{
    ('\u{9}' <= c && c <= '\u{d}') || c == ' ' || c == '\u{85}' || c == '\u{a0}' || c == '\u{1680}'
        || ('\u{2000}' <= c && c <= '\u{200a}') || c == '\u{2028}' || c == '\u{2029}' || c
        == '\u{202f}' || c == '\u{205f}' || c == '\u{3000}'
}

/// Cuts every `unwanted` off the start of `s`.
pub fn trim_start_matches(s: &str, unwanted: char) -> (rest: &str)
    ensures
        rest@ == trimmed_front(s@, |c: char| c == unwanted),
{
    let ghost drop = |c: char| c == unwanted;
    let chars: Vec<char> = characters(s);
    let mut start: usize = 0;
    assert(s@.skip(0) == s@);
    while start < chars.len() && chars[start] == unwanted
        invariant
            chars@ == s@,
            start <= chars.len(),
            drop == (|c: char| c == unwanted),
            trimmed_front(s@.skip(start as int), drop) == trimmed_front(s@, drop),
        decreases chars.len() - start,
    {
        assert(s@.skip(start as int).drop_first() == s@.skip(start + 1));
        start += 1;
    }
    s.substring_char(start, chars.len())
}

/// Cuts white space off the two ends of `s`.
pub fn trim(s: &str) -> (rest: &str)
    ensures
        rest@ == trimmed(s@),
{
    let ghost drop = |c: char| is_white_space(c);
    let chars: Vec<char> = characters(s);
    let mut start: usize = 0;
    assert(s@.skip(0) == s@);
    while start < chars.len() && white_space(chars[start])
        invariant
            chars@ == s@,
            start <= chars.len(),
            drop == (|c: char| is_white_space(c)),
            trimmed_front(s@.skip(start as int), drop) == trimmed_front(s@, drop),
        decreases chars.len() - start,
    {
        assert(s@.skip(start as int).drop_first() == s@.skip(start + 1));
        start += 1;
    }
    let ghost front = trimmed_front(s@, drop);
    let mut end: usize = chars.len();
    assert(s@.subrange(start as int, end as int) == front);
    while start < end && white_space(chars[end - 1])
        invariant
            chars@ == s@,
            start <= end <= chars.len(),
            drop == (|c: char| is_white_space(c)),
            trimmed_back(s@.subrange(start as int, end as int), drop) == trimmed_back(front, drop),
        decreases end - start,
    {
        assert(s@.subrange(start as int, end as int).drop_last() == s@.subrange(
            start as int,
            end - 1,
        ));
        end -= 1;
    }
    s.substring_char(start, end)
}

/// Puts the texts of `list` together, with `sep` between neighbours.
pub fn join(list: &Vec<String>, sep: &str) -> (all: String)
    ensures
        all@ == joined(texts(list@), sep@),
{
    let mut all = String::new();
    let mut i: usize = 0;
    while i < list.len()
        invariant
            i <= list.len(),
            all@ == joined(texts(list@).take(i as int), sep@),
        decreases list.len() - i,
    {
        assert(texts(list@).take(i + 1).drop_last() == texts(list@).take(i as int));
        if i > 0 {
            all.append(sep);
        }
        all.append(list[i].as_str());
        i += 1;
    }
    assert(texts(list@).take(list@.len() as int) == texts(list@));
    all
}

/// No piece holds the separator, and the pieces put together again with the separator between
/// them are the text that was split.
pub proof fn split_pieces_join_back(s: Seq<char>, sep: char)
    ensures
        pieces(s, sep).len() >= 1,
        joined(pieces(s, sep), seq![sep]) == s,
        forall|i: int| 0 <= i < pieces(s, sep).len() ==> !(#[trigger] pieces(s, sep)[i]).contains(sep),
    decreases s.len(),
{
    reveal_with_fuel(joined, 2);
    if s.len() > 0 {
        split_pieces_join_back(s.drop_last(), sep);
        let before = pieces(s.drop_last(), sep);
        let now = pieces(s, sep);
        if s.last() == sep {
            assert(now.drop_last() == before);
            assert(joined(now, seq![sep]) == s);
        } else {
            assert(now.drop_last() == before.drop_last());
            assert(joined(now, seq![sep]) == joined(before, seq![sep]).push(s.last()));
            assert(s == s.drop_last().push(s.last()));
            assert forall|i: int| 0 <= i < now.len() implies !(#[trigger] now[i]).contains(sep) by {
                if i == now.len() - 1 {
                    assert(!before[before.len() - 1].contains(sep));
                    assert forall|j: int| 0 <= j < now[i].len() implies now[i][j] != sep by {
                        if j < now[i].len() - 1 {
                            assert(before.last()[j] == now[i][j]);
                            assert(before.last().contains(before.last()[j]));
                        }
                    }
                } else {
                    assert(now[i] == before[i]);
                }
            }
        }
    }
}

/// A text without the separator is its own only piece.
pub proof fn single_piece(s: Seq<char>, sep: char)
    requires
        !s.contains(sep),
    ensures
        pieces(s, sep) == seq![s],
    decreases s.len(),
{
    if s.len() > 0 {
        assert(s.contains(s[s.len() - 1]));
        assert(s == s.drop_last().push(s.last()));
        assert forall|j: int| 0 <= j < s.drop_last().len() implies s.drop_last()[j] != sep by {
            assert(s.contains(s[j]));
        }
        single_piece(s.drop_last(), sep);
        assert(pieces(s, sep) == seq![s]);
    }
}

/// What stands behind a separator, and holds no other, is one more piece.
pub proof fn one_more_piece(s: Seq<char>, sep: char, more: Seq<char>)
    requires
        !more.contains(sep),
    ensures
        pieces(s + seq![sep] + more, sep) == pieces(s, sep).push(more),
    decreases more.len(),
{
    let whole = s + seq![sep] + more;
    if more.len() == 0 {
        assert(whole.drop_last() == s);
        assert(more == Seq::<char>::empty());
    } else {
        assert(more.contains(more[more.len() - 1]));
        assert forall|j: int| 0 <= j < more.drop_last().len() implies more.drop_last()[j] != sep by {
            assert(more.contains(more[j]));
        }
        one_more_piece(s, sep, more.drop_last());
        assert(whole.drop_last() == s + seq![sep] + more.drop_last());
        assert(more.drop_last().push(more.last()) == more);
        assert(pieces(whole, sep) == pieces(s, sep).push(more));
    }
}

/// Texts without the separator come back when what they were joined to is split.
pub proof fn joined_texts_split_back(list: Seq<Seq<char>>, sep: char)
    requires
        list.len() > 0,
        forall|i: int| 0 <= i < list.len() ==> !(#[trigger] list[i]).contains(sep),
    ensures
        pieces(joined(list, seq![sep]), sep) == list,
    decreases list.len(),
{
    let init = list.drop_last();
    assert(!list[list.len() - 1].contains(sep));
    if list.len() == 1 {
        single_piece(list[0], sep);
        assert(list =~= seq![list[0]]);
    } else {
        assert forall|i: int| 0 <= i < init.len() implies !(#[trigger] init[i]).contains(sep) by {
            assert(!list[i].contains(sep));
        }
        joined_texts_split_back(init, sep);
        one_more_piece(joined(init, seq![sep]), sep, list.last());
        assert(init.push(list.last()) =~= list);
    }
}

/// The texts of strings are those that the strings hold, each in its place.
pub proof fn texts_are_what_strings_hold(
    list: Seq<String>,
    pair_list: Seq<(String, String)>,
    optional: Option<String>,
)
    ensures
        texts(list).len() == list.len(),
        forall|i: int| 0 <= i < list.len() ==> #[trigger] texts(list)[i] == list[i]@,
        pairs(pair_list).len() == pair_list.len(),
        forall|i: int|
            0 <= i < pair_list.len() ==> (#[trigger] pairs(pair_list)[i]).0 == pair_list[i].0@
                && pairs(pair_list)[i].1 == pair_list[i].1@,
        optional is None <==> optional_text(optional) is None,
        optional matches Some(s) ==> optional_text(optional) == Some(s@),
{
}

/// A text without its prefix is what has to be put behind the prefix to have the text back; there
/// is such a rest exactly where there is one at all.
pub proof fn prefix_and_rest_are_the_text(s: Seq<char>, prefix: Seq<char>, rest: Seq<char>)
    ensures
        without_prefix(s, prefix) == Some(rest) <==> s == prefix + rest,
{
    if s == prefix + rest {
        assert(s.take(prefix.len() as int) =~= prefix);
        assert(s.skip(prefix.len() as int) =~= rest);
    }
    if without_prefix(s, prefix) == Some(rest) {
        assert(s =~= prefix + rest);
    }
}

/// A text without its suffix is what has to be put in front of the suffix to have the text back;
/// there is such a rest exactly where there is one at all.
pub proof fn rest_and_suffix_are_the_text(s: Seq<char>, rest: Seq<char>, suffix: Seq<char>)
    ensures
        without_suffix(s, suffix) == Some(rest) <==> s == rest + suffix,
{
    if s == rest + suffix {
        assert(s.take(rest.len() as int) =~= rest);
        assert(s.skip(rest.len() as int) =~= suffix);
    }
    if without_suffix(s, suffix) == Some(rest) {
        assert(s =~= rest + suffix);
    }
}

/// A list put together is its first part put together, the separator, and its second part put
/// together; one text alone is itself, and no text is the empty text.
pub proof fn parts_join_with_a_separator(
    one: Seq<Seq<char>>,
    other: Seq<Seq<char>>,
    single: Seq<char>,
    sep: Seq<char>,
)
    ensures
        joined(Seq::<Seq<char>>::empty(), sep) == Seq::<char>::empty(),
        joined(seq![single], sep) == single,
        one.len() > 0 && other.len() > 0 ==> joined(one + other, sep) == joined(one, sep) + sep
            + joined(other, sep),
    decreases other.len(),
{
    if one.len() > 0 && other.len() > 0 {
        assert((one + other).drop_last() =~= one + other.drop_last());
        assert((one + other).last() == other.last());
        if other.len() == 1 {
            assert(one + other.drop_last() =~= one);
            assert(joined(one + other, sep) =~= joined(one, sep) + sep + joined(other, sep));
        } else {
            parts_join_with_a_separator(one, other.drop_last(), single, sep);
            assert(joined(one + other, sep) =~= joined(one, sep) + sep + joined(other, sep));
        }
    }
}

/// Trimming the start takes off the longest run of unwanted characters there, and nothing else:
/// what is left starts with another character, or is empty.
pub proof fn only_the_unwanted_start_is_trimmed(s: Seq<char>, drop: spec_fn(char) -> bool)
    ensures
        trimmed_front(s, drop).len() <= s.len(),
        trimmed_front(s, drop) == s.skip(s.len() - trimmed_front(s, drop).len()),
        forall|i: int|
            0 <= i < s.len() - trimmed_front(s, drop).len() ==> #[trigger] drop(s[i]),
        trimmed_front(s, drop).len() > 0 ==> !drop(trimmed_front(s, drop)[0]),
    decreases s.len(),
{
    let left = trimmed_front(s, drop);
    if s.len() > 0 && drop(s[0]) {
        only_the_unwanted_start_is_trimmed(s.drop_first(), drop);
        assert(left =~= s.skip(s.len() - left.len()));
        assert forall|i: int| 0 <= i < s.len() - left.len() implies #[trigger] drop(s[i]) by {
            if i > 0 {
                assert(drop(s.drop_first()[i - 1]));
            }
        }
    } else {
        assert(left =~= s.skip(0));
    }
}

proof fn only_the_unwanted_end_is_trimmed(s: Seq<char>, drop: spec_fn(char) -> bool)
    ensures
        trimmed_back(s, drop).len() <= s.len(),
        trimmed_back(s, drop) == s.take(trimmed_back(s, drop).len() as int),
        forall|i: int|
            trimmed_back(s, drop).len() <= i < s.len() ==> #[trigger] drop(s[i]),
        trimmed_back(s, drop).len() > 0 ==> !drop(trimmed_back(s, drop).last()),
    decreases s.len(),
{
    let left = trimmed_back(s, drop);
    if s.len() > 0 && drop(s.last()) {
        only_the_unwanted_end_is_trimmed(s.drop_last(), drop);
        assert(left =~= s.take(left.len() as int));
        assert forall|i: int| left.len() <= i < s.len() implies #[trigger] drop(s[i]) by {
            if i < s.len() - 1 {
                assert(drop(s.drop_last()[i]));
            }
        }
    } else {
        assert(left =~= s.take(s.len() as int));
    }
}

/// Trimming a text takes the white space off its two ends and nothing else: the text is some
/// white space, the trimmed text and some white space, and the trimmed text neither starts nor
/// ends with any.
pub proof fn only_white_space_is_trimmed(s: Seq<char>) -> (start: int)
    ensures
        0 <= start <= start + trimmed(s).len() <= s.len(),
        trimmed(s) == s.subrange(start, start + trimmed(s).len()),
        forall|i: int|
            0 <= i < start || start + trimmed(s).len() <= i < s.len() ==> is_white_space(
                #[trigger] s[i],
            ),
        trimmed(s).len() > 0 ==> !is_white_space(trimmed(s)[0]) && !is_white_space(
            trimmed(s).last(),
        ),
{
    let drop = |c: char| is_white_space(c);
    let front = trimmed_front(s, drop);
    let left = trimmed(s);
    only_the_unwanted_start_is_trimmed(s, drop);
    only_the_unwanted_end_is_trimmed(front, drop);
    let start = s.len() - front.len();
    assert(left =~= s.subrange(start, start + left.len()));
    assert forall|i: int| 0 <= i < start || start + left.len() <= i < s.len() implies is_white_space(
        #[trigger] s[i],
    ) by {
        if i < start {
            assert(drop(s[i]));
        } else {
            assert(drop(front[i - start]));
        }
    }
    if left.len() > 0 {
        assert(left[0] == front[0]);
        assert(!drop(front[0]));
        assert(!drop(left.last()));
    }
    start
}

/// White space is, by code point: the controls 9 to 13, the spaces 32, 160, 5760, 8192 to 8202,
/// 8239, 8287 and 12288, and the line breaks 133, 8232 and 8233.
pub proof fn white_space_by_code_point(c: char)
    ensures
        is_white_space(c) <==> {
            let code = c as int;
            ||| 9 <= code <= 13
            ||| code == 32 || code == 160 || code == 5760
            ||| 8192 <= code <= 8202
            ||| code == 8239 || code == 8287 || code == 12288
            ||| code == 133 || code == 8232 || code == 8233
        },
{
}

} // verus!
