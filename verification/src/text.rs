//! Text: numbers in decimal, chat commands, lines of a listing.

use std::num::ParseIntError;
use vstd::prelude::*;

verus! {

/// The character of a decimal digit.
pub open spec fn digit_char(d: nat) -> char {
    (d + 48) as char
}

/// Whether a character is a decimal digit.
pub open spec fn is_digit(c: char) -> bool {
    '0' <= c <= '9'
}

/// A number in decimal, without leading zeros.
pub open spec fn decimal_text(n: nat) -> Seq<char>
    decreases n,
{
    if n < 10 {
        seq![digit_char(n)]
    } else {
        decimal_text(n / 10).push(digit_char(n % 10))
    }
}

/// The number that a string of decimal digits stands for.
pub open spec fn decimal_value(s: Seq<char>) -> nat
    decreases s.len(),
{
    if s.len() == 0 {
        0
    } else {
        decimal_value(s.drop_last()) * 10 + (s.last() as nat - 48) as nat
    }
}

/// Whether every character of a text is a decimal digit.
pub open spec fn has_digits_only(s: Seq<char>) -> bool {
    forall|i: int| 0 <= i < s.len() ==> is_digit(#[trigger] s[i])
}

/// The number that a text stands for: decimal digits, at least one, behind a
/// plus sign or none.
pub open spec fn parsed_number(s: Seq<char>) -> Option<nat> {
    let digits = if s.len() > 0 && s[0] == '+' {
        s.drop_first()
    } else {
        s
    };
    if digits.len() > 0 && has_digits_only(digits) {
        Some(decimal_value(digits))
    } else {
        None
    }
}

/// The index that a text stands for, if it stands for one that fits.
pub open spec fn parsed_index(s: Seq<char>) -> Option<usize> {
    match parsed_number(s) {
        Some(n) => if n <= usize::MAX {
            Some(n as usize)
        } else {
            None
        },
        None => None,
    }
}

/// Whether `needle` occurs somewhere in `hay`.
pub open spec fn occurs_in(needle: Seq<char>, hay: Seq<char>) -> bool {
    exists|i: int|
        0 <= i <= hay.len() - needle.len() && #[trigger] hay.subrange(i, i + needle.len())
            == needle
}

/// What `str::to_lowercase` makes of a text.
pub uninterp spec fn lower_text(s: Seq<char>) -> Seq<char>;

/// The error that `str::parse::<usize>` gives for a text that stands for no index, where
/// `max` is the largest one.
pub uninterp spec fn index_error(s: Seq<char>, max: usize) -> ParseIntError;

/// `std::num::ParseIntError`: why a text is not a number. It is only handed on.
#[verifier::external_type_specification]
#[verifier::external_body]
pub struct ExParseIntError(ParseIntError);

/// `str::to_lowercase`: the lower-case form of a text depends on the text alone.
#[verifier::external_body]
pub(crate) fn lowered(s: &str) -> (r: String)
    ensures
        r@ == lower_text(s@),
{
    s.to_lowercase()
}

/// `str::parse::<usize>`: decimal digits behind at most one plus sign, as long as
/// the number fits. For any other text there is an error, which depends on the text
/// and on the largest number that fits.
#[verifier::external_body]
pub(crate) fn parse_usize(s: &str) -> (r: Result<usize, ParseIntError>)
    ensures
        match parsed_index(s@) {
            Some(n) => r == Ok::<usize, ParseIntError>(n),
            None => r == Err::<usize, ParseIntError>(index_error(s@, usize::MAX)),
        },
{
    s.parse::<usize>()
}

/// Whether two texts are the same.
pub fn same_text(a: &str, b: &str) -> (r: bool)
    ensures
        r == (a@ == b@),
{
    let n: usize = a.unicode_len();
    if n != b.unicode_len() {
        return false;
    }
    for i in 0..n
        invariant
            n == a@.len(),
            n == b@.len(),
            forall|j: int| 0 <= j < i ==> a@[j] == b@[j],
    {
        if a.get_char(i) != b.get_char(i) {
            return false;
        }
    }
    assert(a@ =~= b@);
    true
}

/// The characters of a text.
fn chars_of(s: &str) -> (r: Vec<char>)
    ensures
        r@ == s@,
{
    let n: usize = s.unicode_len();
    let mut r: Vec<char> = Vec::new();
    for i in 0..n
        invariant
            n == s@.len(),
            r@ == s@.take(i as int),
    {
        r.push(s.get_char(i));
        assert(s@.take(i + 1) =~= s@.take(i as int).push(s@[i as int]));
    }
    assert(r@ =~= s@);
    r
}

/// Whether one list of characters stands in another at a place.
fn occurs_at(hay: &Vec<char>, needle: &Vec<char>, at: usize) -> (r: bool)
    requires
        at + needle@.len() <= hay@.len(),
    ensures
        r == (hay@.subrange(at as int, at + needle@.len()) == needle@),
{
    let n: usize = hay.len();
    let ghost part = hay@.subrange(at as int, at + needle@.len());
    for j in 0..needle.len()
        invariant
            at + needle@.len() <= hay@.len(),
            n == hay@.len(),
            part == hay@.subrange(at as int, at + needle@.len()),
            forall|k: int| 0 <= k < j ==> part[k] == needle@[k],
    {
        assert(at + j < n);
        if hay[at + j] != needle[j] {
            assert(part[j as int] != needle@[j as int]);
            return false;
        }
    }
    assert(part =~= needle@);
    true
}

/// Whether one text is a part of another.
pub fn contains_text(hay: &str, needle: &str) -> (r: bool)
    ensures
        r == occurs_in(needle@, hay@),
{
    let hay_chars = chars_of(hay);
    let needle_chars = chars_of(needle);
    let n: usize = hay_chars.len();
    let m: usize = needle_chars.len();
    if m > n {
        return false;
    }
    let mut at: usize = 0;
    while at <= n - m
        invariant
            hay_chars@ == hay@,
            needle_chars@ == needle@,
            n == hay@.len(),
            m == needle@.len(),
            m <= n,
            at <= n - m + 1,
            forall|i: int| 0 <= i < at ==> #[trigger] hay@.subrange(i, i + m) != needle@,
        decreases n - m + 1 - at,
    {
        if occurs_at(&hay_chars, &needle_chars, at) {
            return true;
        }
        if at == n - m {
            return false;
        }
        at = at + 1;
    }
    false
}

/// A digit as a text.
fn digit_text(d: usize) -> (r: &'static str)
    requires
        d < 10,
    ensures
        r@ == seq![digit_char(d as nat)],
{
    proof {
        reveal_strlit("0");
        reveal_strlit("1");
        reveal_strlit("2");
        reveal_strlit("3");
        reveal_strlit("4");
        reveal_strlit("5");
        reveal_strlit("6");
        reveal_strlit("7");
        reveal_strlit("8");
        reveal_strlit("9");
    }
    let r = match d {
        0 => "0",
        1 => "1",
        2 => "2",
        3 => "3",
        4 => "4",
        5 => "5",
        6 => "6",
        7 => "7",
        8 => "8",
        _ => "9",
    };
    assert(r@ =~= seq![digit_char(d as nat)]);
    r
}

/// A number in decimal, without leading zeros.
pub fn number_text(n: usize) -> (r: String)
    ensures
        r@ == decimal_text(n as nat),
    decreases n,
{
    if n < 10 {
        digit_text(n).to_owned()
    } else {
        let r = number_text(n / 10).concat(digit_text(n % 10));
        assert(r@ =~= decimal_text(n as nat));
        r
    }
}

/// The index that a text stands for.
pub fn read_index(s: &str) -> (r: Option<usize>)
    ensures
        r == parsed_index(s@),
{
    match parse_usize(s) {
        Ok(n) => Some(n),
        Err(_) => None,
    }
}

/// A line of a listing: a number, a colon and a name.
pub open spec fn numbered_line(n: usize, name: Seq<char>) -> Seq<char> {
    decimal_text(n as nat) + ": "@ + name
}

/// A line of a listing: a number, a colon and a name.
pub fn write_numbered_line(n: usize, name: &str) -> (r: String)
    ensures
        r@ == numbered_line(n, name@),
{
    number_text(n).concat(": ").concat(name)
}

/// The place of the first space at or after `from`, or the end of the text.
pub open spec fn space_from(s: Seq<char>, from: int) -> int
    decreases s.len() - from,
{
    if from >= s.len() || s[from] == ' ' {
        from
    } else {
        space_from(s, from + 1)
    }
}

/// Whether a chat line is a command.
pub open spec fn is_command(msg: Seq<char>) -> bool {
    msg.len() > 0 && msg[0] == '/'
}

/// The word of a command line: what stands between the slash and the first space.
pub open spec fn command_word(msg: Seq<char>) -> Seq<char> {
    msg.subrange(1, space_from(msg, 1))
}

/// The argument of a command line: what stands behind the first space.
pub open spec fn command_arg(msg: Seq<char>) -> Seq<char> {
    let k = space_from(msg, 1);
    if k < msg.len() {
        msg.skip(k + 1)
    } else {
        seq![]
    }
}

proof fn lemma_space_from(s: Seq<char>, from: int)
    requires
        0 <= from <= s.len(),
    ensures
        from <= space_from(s, from) <= s.len(),
    decreases s.len() - from,
{
    if from < s.len() && s[from] != ' ' {
        lemma_space_from(s, from + 1);
    }
}

/// Tells a command from plain chat, and splits it.
pub fn split_command(msg: &str) -> (r: Option<(String, String)>)
    ensures
        match r {
            Some((word, arg)) => is_command(msg@) && word@ == command_word(msg@) && arg@
                == command_arg(msg@),
            None => !is_command(msg@),
        },
{
    let n: usize = msg.unicode_len();
    if n == 0 || msg.get_char(0) != '/' {
        return None;
    }
    let mut k: usize = 1;
    while k < n && msg.get_char(k) != ' '
        invariant
            1 <= k <= n,
            n == msg@.len(),
            space_from(msg@, k as int) == space_from(msg@, 1),
        decreases n - k,
    {
        k = k + 1;
    }
    let word = msg.substring_char(1, k).to_owned();
    let arg = if k < n {
        assert(msg@.skip(k + 1) == msg@.subrange(k + 1, n as int));
        msg.substring_char(k + 1, n).to_owned()
    } else {
        assert(msg@.subrange(n as int, n as int) == Seq::<char>::empty());
        String::new()
    };
    Some((word, arg))
}

} // verus!
