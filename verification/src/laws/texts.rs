//! Laws on numbers in texts, on words, and on what is said to the list of public servers.

use crate::game::{HQMClientVersion, HQMPlayerInput, HQMRulesState, HQMTeam};
use crate::master::{
    announcement, is_blank, next_place, parsed_port, word, word_range, HQMAnnouncer,
    HQMAnnouncerAction, HQMAnnouncerEvent,
};
use crate::net::HQMSocketAddr;
use crate::text::{decimal_text, decimal_value, digit_char, is_digit, parsed_index, parsed_number};
use vstd::prelude::*;

verus! {

/// Teams have the numbers and the names that clients know them by.
pub proof fn law_teams()
    ensures
        HQMTeam::Red.num() == 0,
        HQMTeam::Blue.num() == 1,
        HQMTeam::Red.name() == "Red"@,
        HQMTeam::Blue.name() == "Blue"@,
{
}

/// What clients can be told beyond the basic protocol.
pub proof fn law_versions(version: HQMClientVersion)
    ensures
        version.ping() <==> version is Ping || version is PingRules,
        version.rules() <==> version is PingRules,
{
}

/// What the referee shows has a bit for each warning and for each stoppage.
pub proof fn law_referees(offside_warning: bool, icing_warning: bool)
    ensures
        ({
            let code = (HQMRulesState::Regular { offside_warning, icing_warning }).code();
            &&& (code % 2 == 1 <==> offside_warning)
            &&& (code / 2 == 1 <==> icing_warning)
            &&& code < 4
        }),
        HQMRulesState::Offside.code() == 4,
        HQMRulesState::Icing.code() == 8,
{
}

/// At rest every control is at zero.
pub proof fn law_rest()
    ensures
        ({
            let rest = HQMPlayerInput::rest();
            &&& rest.stick_angle.bits == 0
            &&& rest.turn.bits == 0
            &&& rest.fwbw.bits == 0
            &&& rest.stick.0.bits == 0
            &&& rest.stick.1.bits == 0
            &&& rest.head_rot.bits == 0
            &&& rest.body_rot.bits == 0
            &&& rest.keys == 0
        }),
{
}

/// The ten digits are the characters from zero to nine, and nothing else is one.
pub proof fn law_digits(c: char)
    ensures
        is_digit(c) <==> (c == '0' || c == '1' || c == '2' || c == '3' || c == '4' || c == '5' || c
            == '6' || c == '7' || c == '8' || c == '9'),
        digit_char(0) == '0',
        digit_char(9) == '9',
{
}

/// A number in decimal has one digit for each power of ten, and no zero in front.
pub proof fn law_decimal_numbers(n: nat)
    ensures
        n < 10 ==> decimal_text(n) == seq![(n + 48) as char],
        n >= 10 ==> {
            &&& decimal_text(n).drop_last() == decimal_text(n / 10)
            &&& decimal_text(n).last() == (n % 10 + 48) as char
            &&& decimal_text(n)[0] != '0'
        },
    decreases n,
{
    if n >= 10 {
        law_decimal_numbers(n / 10);
        assert(decimal_text(n).drop_last() =~= decimal_text(n / 10));
        assert(decimal_text(n)[0] == decimal_text(n / 10)[0]);
        if n / 10 < 10 {
            assert(decimal_text(n / 10)[0] == (n / 10 + 48) as char);
        }
    }
}

/// A digit behind a number makes it ten times as large, and adds to it.
pub proof fn law_numbers_grow_by_digits(digits: Seq<char>, c: char)
    requires
        is_digit(c),
        digits.len() > 0,
        forall|i: int| 0 <= i < digits.len() ==> is_digit(#[trigger] digits[i]),
    ensures
        parsed_number(digits) is Some,
        parsed_number(digits.push(c)) == Some(
            (parsed_number(digits)->0 * 10 + (c as nat - 48)) as nat,
        ),
        parsed_number(seq![c]) == Some((c as nat - 48) as nat),
        parsed_number(seq!['+'] + digits) == parsed_number(digits),
{
    let longer = digits.push(c);
    assert(longer.drop_last() =~= digits);
    assert(is_digit(digits[0]));
    assert(longer[0] == digits[0]);
    assert forall|i: int| 0 <= i < longer.len() implies is_digit(#[trigger] longer[i]) by {
        if i < digits.len() {
            assert(longer[i] == digits[i]);
        }
    }
    let one = seq![c];
    assert(one.drop_last() =~= seq![]);
    assert(decimal_value(one.drop_last()) == 0);
    assert(one[0] == c);
    let signed = seq!['+'] + digits;
    assert(signed.drop_first() =~= digits);
}

/// A text that is empty, or has anything but digits behind a plus sign or none, is no
/// number; one that is too large is no index.
pub proof fn law_no_numbers(s: Seq<char>, i: int)
    ensures
        parsed_number(seq![]) is None,
        0 <= i < s.len() && !is_digit(s[i]) && (i > 0 || s[0] != '+') ==> parsed_number(s) is None,
        parsed_number(s) is None ==> parsed_index(s) is None,
        parsed_number(s) is Some ==> (parsed_index(s) is Some <==> parsed_number(s)->0
            <= usize::MAX),
        parsed_index(s) is Some ==> parsed_index(s)->0 == parsed_number(s)->0,
{
    if 0 <= i < s.len() && !is_digit(s[i]) && (i > 0 || s[0] != '+') {
        if s[0] == '+' {
            assert(s.drop_first()[i - 1] == s[i]);
        }
    }
}

/// A port is a number of at most sixteen bits.
pub proof fn law_ports(s: Seq<char>)
    ensures
        parsed_port(s) is Some <==> parsed_index(s) is Some && parsed_index(s)->0 <= 65535,
        parsed_port(s) is Some ==> parsed_port(s)->0 == parsed_index(s)->0,
{
}

proof fn lemma_next_place(s: Seq<char>, blank: bool, from: int, to: int)
    requires
        0 <= from <= to <= s.len(),
        forall|i: int| from <= i < to ==> is_blank(#[trigger] s[i]) != blank,
        to < s.len() ==> is_blank(s[to]) == blank,
    ensures
        next_place(s, blank, from) == to,
    decreases to - from,
{
    if from < to {
        lemma_next_place(s, blank, from + 1, to);
    }
}

/// Words are separated by spaces, tabs, and the ends of lines and pages.
pub proof fn law_blanks(c: char)
    ensures
        is_blank(c) <==> (c == ' ' || c == '\t' || c == '\n' || c == '\r' || c == '\u{c}'),
{
}

/// Whether a text has blanks only, and whether it has none.
pub open spec fn all_blank(s: Seq<char>, blank: bool) -> bool {
    forall|i: int| 0 <= i < s.len() ==> is_blank(#[trigger] s[i]) == blank
}

/// Of three words with blanks around them, whatever stands behind, the second and the
/// third are read as they are.
pub proof fn law_words(
    gaps: Seq<Seq<char>>,
    first: Seq<char>,
    second: Seq<char>,
    third: Seq<char>,
    rest: Seq<char>,
)
    requires
        gaps.len() == 3,
        all_blank(gaps[0], true),
        all_blank(gaps[1], true),
        all_blank(gaps[2], true),
        gaps[1].len() > 0,
        gaps[2].len() > 0,
        first.len() > 0,
        second.len() > 0,
        third.len() > 0,
        all_blank(first, false),
        all_blank(second, false),
        all_blank(third, false),
        rest.len() > 0 ==> is_blank(rest[0]),
    ensures
        ({
            let s = gaps[0] + first + gaps[1] + second + gaps[2] + third + rest;
            word(s, 0) == first && word(s, 1) == second && word(s, 2) == third
        }),
{
    let s = gaps[0] + first + gaps[1] + second + gaps[2] + third + rest;
    let a = gaps[0].len() as int;
    let b = a + first.len();
    let c = b + gaps[1].len();
    let d = c + second.len();
    let e = d + gaps[2].len();
    let f = e + third.len();
    assert forall|i: int| 0 <= i < a implies is_blank(#[trigger] s[i]) by {
        assert(s[i] == gaps[0][i]);
    }
    assert forall|i: int| a <= i < b implies !is_blank(#[trigger] s[i]) by {
        assert(s[i] == first[i - a]);
    }
    assert forall|i: int| b <= i < c implies is_blank(#[trigger] s[i]) by {
        assert(s[i] == gaps[1][i - b]);
    }
    assert forall|i: int| c <= i < d implies !is_blank(#[trigger] s[i]) by {
        assert(s[i] == second[i - c]);
    }
    assert forall|i: int| d <= i < e implies is_blank(#[trigger] s[i]) by {
        assert(s[i] == gaps[2][i - d]);
    }
    assert forall|i: int| e <= i < f implies !is_blank(#[trigger] s[i]) by {
        assert(s[i] == third[i - e]);
    }
    if f < s.len() {
        assert(s[f] == rest[0]);
    }
    lemma_next_place(s, false, 0, a);
    lemma_next_place(s, true, a, b);
    lemma_next_place(s, false, b, c);
    lemma_next_place(s, true, c, d);
    lemma_next_place(s, false, d, e);
    lemma_next_place(s, true, e, f);
    reveal_with_fuel(word_range, 3);
    assert(s.subrange(a, b) =~= first);
    assert(s.subrange(c, d) =~= second);
    assert(s.subrange(e, f) =~= third);
}

/// Where there are not so many words, there is nothing to be read.
pub proof fn law_missing_words(s: Seq<char>, n: nat)
    requires
        word_range(s, n).1 == s.len(),
    ensures
        word(s, n + 1).len() == 0,
{
}

/// The server says `Hock` and a space to the list of public servers.
pub proof fn law_announced_bytes()
    ensures
        announcement().len() == 5,
        announcement()[0] == 0x48,
        announcement()[1] == 0x6f,
        announcement()[2] == 0x63,
        announcement()[3] == 0x6b,
        announcement()[4] == 0x20,
{
}

/// What the announcer does: it announces at the address that it found, waits ten seconds
/// between two announcements, asks again when one could not be sent, and waits fifteen
/// seconds when it found no address.
pub proof fn law_announcer(addr: HQMSocketAddr, left: u32)
    requires
        left > 0,
    ensures
        HQMAnnouncer::Asking.after(HQMAnnouncerEvent::Found(addr)) == (
            HQMAnnouncer::Announcing { addr, left: 60 },
            HQMAnnouncerAction::Send(addr),
        ),
        HQMAnnouncer::Asking.after(HQMAnnouncerEvent::NotFound) == (
            HQMAnnouncer::Retrying,
            HQMAnnouncerAction::Sleep(15),
        ),
        HQMAnnouncer::Retrying.after(HQMAnnouncerEvent::Slept) == (
            HQMAnnouncer::Asking,
            HQMAnnouncerAction::Ask,
        ),
        (HQMAnnouncer::Announcing { addr, left }).after(HQMAnnouncerEvent::Sent(true)) == (
            HQMAnnouncer::Pausing { addr, left: (left - 1) as u32 },
            HQMAnnouncerAction::Sleep(10),
        ),
        (HQMAnnouncer::Announcing { addr, left }).after(HQMAnnouncerEvent::Sent(false)) == (
            HQMAnnouncer::Asking,
            HQMAnnouncerAction::Ask,
        ),
        (HQMAnnouncer::Pausing { addr, left }).after(HQMAnnouncerEvent::Slept) == (
            HQMAnnouncer::Announcing { addr, left },
            HQMAnnouncerAction::Send(addr),
        ),
        (HQMAnnouncer::Pausing { addr, left: 0 }).after(HQMAnnouncerEvent::Slept) == (
            HQMAnnouncer::Asking,
            HQMAnnouncerAction::Ask,
        ),
{
}

} // verus!
