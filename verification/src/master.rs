//! Announcing the server to the list of public servers.

use crate::net::HQMSocketAddr;
use crate::text::{parsed_index, read_index};
use vstd::prelude::*;

verus! {

/// How many times the server is announced before the address is asked for again.
pub const ANNOUNCEMENTS: u32 = 60;

/// How long to wait between two announcements, in seconds.
pub const ANNOUNCEMENT_PAUSE: u64 = 10;

/// How long to wait before asking for the address again, in seconds.
pub const RETRY_PAUSE: u64 = 15;

/// Whether a character separates words.
pub open spec fn is_blank(c: char) -> bool {
    c == ' ' || c == '\t' || c == '\n' || c == '\r' || c == '\u{c}'
}

/// The first place at or after `from` whose character is blank, or is not, as asked
/// for; or the end of the text.
pub open spec fn next_place(s: Seq<char>, blank: bool, from: int) -> int
    decreases s.len() - from,
{
    if from >= s.len() || is_blank(s[from]) == blank {
        from
    } else {
        next_place(s, blank, from + 1)
    }
}

/// Where the word of a number begins, counted from zero, and where it ends.
pub open spec fn word_range(s: Seq<char>, n: nat) -> (int, int)
    decreases n,
{
    let from = if n == 0 {
        0
    } else {
        word_range(s, (n - 1) as nat).1
    };
    let start = next_place(s, false, from);
    (start, next_place(s, true, start))
}

/// The word of a number, counted from zero. It is empty where there are not as many.
pub open spec fn word(s: Seq<char>, n: nat) -> Seq<char> {
    let (start, end) = word_range(s, n);
    s.subrange(start, end)
}

/// The port that a text stands for, if it stands for one that fits.
pub open spec fn parsed_port(s: Seq<char>) -> Option<u16> {
    match parsed_index(s) {
        Some(n) => if n <= u16::MAX {
            Some(n as u16)
        } else {
            None
        },
        None => None,
    }
}

/// Where a text goes on with a blank, or with something else.
fn find_place(s: &str, blank: bool, from: usize) -> (r: usize)
    requires
        from <= s@.len(),
    ensures
        r == next_place(s@, blank, from as int),
        from <= r <= s@.len(),
{
    let n: usize = s.unicode_len();
    let mut k: usize = from;
    while k < n
        invariant
            from <= k <= n,
            n == s@.len(),
            next_place(s@, blank, k as int) == next_place(s@, blank, from as int),
        decreases n - k,
    {
        let c = s.get_char(k);
        let found: bool = c == ' ' || c == '\t' || c == '\n' || c == '\r' || c == '\u{c}';
        if found == blank {
            return k;
        }
        k = k + 1;
    }
    k
}

/// What the list of public servers answers: the text of its address, which stands
/// in the second word, and its port, which stands in the third.
pub fn read_master_server(response: &str) -> (r: (String, Option<u16>))
    ensures
        r.0@ == word(response@, 1),
        r.1 == parsed_port(word(response@, 2)),
{
    proof {
        reveal_with_fuel(word_range, 3);
    }
    let start: usize = find_place(response, false, 0);
    let end: usize = find_place(response, true, start);
    let addr_start: usize = find_place(response, false, end);
    let addr_end: usize = find_place(response, true, addr_start);
    let port_start: usize = find_place(response, false, addr_end);
    let port_end: usize = find_place(response, true, port_start);
    let addr = response.substring_char(addr_start, addr_end).to_owned();
    let port = match read_index(response.substring_char(port_start, port_end)) {
        Some(n) => if n <= 65535 {
            Some(n as u16)
        } else {
            None
        },
        None => None,
    };
    (addr, port)
}

/// What the server says to the list of public servers.
pub open spec fn announcement() -> Seq<u8> {
    seq![0x48u8, 0x6f, 0x63, 0x6b, 0x20]
}

/// What the server says to the list of public servers.
pub fn write_announcement() -> (r: Vec<u8>)
    ensures
        r@ == announcement(),
{
    let r: Vec<u8> = vec![0x48, 0x6f, 0x63, 0x6b, 0x20];
    assert(r@ =~= announcement());
    r
}

/// What the announcer waits for.
#[derive(Debug, Copy, Clone, Eq, PartialEq, Structural)]
pub enum HQMAnnouncer {
    /// The address of the list.
    Asking,
    /// The time to ask again.
    Retrying,
    /// Whether the announcement could be sent; `left` counts it and those to come.
    Announcing { addr: HQMSocketAddr, left: u32 },
    /// The time of the next announcement, if any is left.
    Pausing { addr: HQMSocketAddr, left: u32 },
}

/// What came of the announcer's last action.
#[derive(Debug, Copy, Clone, Eq, PartialEq, Structural)]
pub enum HQMAnnouncerEvent {
    /// The address of the list.
    Found(HQMSocketAddr),
    /// The address could not be had.
    NotFound,
    /// Whether the announcement could be sent.
    Sent(bool),
    /// The pause is over.
    Slept,
}

/// What the announcer does next.
#[derive(Debug, Copy, Clone, Eq, PartialEq, Structural)]
pub enum HQMAnnouncerAction {
    /// Ask for the address of the list.
    Ask,
    /// Send the announcement.
    Send(HQMSocketAddr),
    /// Wait for a number of seconds.
    Sleep(u64),
}

impl HQMAnnouncer {
    /// Whether something is what the announcer waits for.
    pub open spec fn accepts(self, event: HQMAnnouncerEvent) -> bool {
        match self {
            HQMAnnouncer::Asking => event is Found || event is NotFound,
            HQMAnnouncer::Retrying => event is Slept,
            HQMAnnouncer::Announcing { addr, left } => event is Sent && left > 0,
            HQMAnnouncer::Pausing { addr, left } => event is Slept,
        }
    }

    /// What the announcer waits for next, and what it does.
    pub open spec fn after(self, event: HQMAnnouncerEvent) -> (HQMAnnouncer, HQMAnnouncerAction) {
        match self {
            HQMAnnouncer::Asking => match event {
                HQMAnnouncerEvent::Found(addr) => (
                    HQMAnnouncer::Announcing { addr, left: ANNOUNCEMENTS },
                    HQMAnnouncerAction::Send(addr),
                ),
                _ => (HQMAnnouncer::Retrying, HQMAnnouncerAction::Sleep(RETRY_PAUSE)),
            },
            HQMAnnouncer::Retrying => (HQMAnnouncer::Asking, HQMAnnouncerAction::Ask),
            HQMAnnouncer::Announcing { addr, left } => if event == HQMAnnouncerEvent::Sent(true) {
                (
                    HQMAnnouncer::Pausing { addr, left: (left - 1) as u32 },
                    HQMAnnouncerAction::Sleep(ANNOUNCEMENT_PAUSE),
                )
            } else {
                (HQMAnnouncer::Asking, HQMAnnouncerAction::Ask)
            },
            HQMAnnouncer::Pausing { addr, left } => if left > 0 {
                (HQMAnnouncer::Announcing { addr, left }, HQMAnnouncerAction::Send(addr))
            } else {
                (HQMAnnouncer::Asking, HQMAnnouncerAction::Ask)
            },
        }
    }

    /// Whether something is what the announcer waits for.
    pub fn can_step(&self, event: &HQMAnnouncerEvent) -> (r: bool)
        ensures
            r == self.accepts(*event),
    {
        match (self, event) {
            (HQMAnnouncer::Asking, HQMAnnouncerEvent::Found(_)) => true,
            (HQMAnnouncer::Asking, HQMAnnouncerEvent::NotFound) => true,
            (HQMAnnouncer::Retrying, HQMAnnouncerEvent::Slept) => true,
            (HQMAnnouncer::Announcing { addr: _, left }, HQMAnnouncerEvent::Sent(_)) => *left > 0,
            (HQMAnnouncer::Pausing { addr: _, left: _ }, HQMAnnouncerEvent::Slept) => true,
            _ => false,
        }
    }

    /// Takes what came of the last action, and says what to do next.
    pub fn step(self, event: HQMAnnouncerEvent) -> (r: (HQMAnnouncer, HQMAnnouncerAction))
        requires
            self.accepts(event),
        ensures
            r == self.after(event),
    {
        match self {
            HQMAnnouncer::Asking => match event {
                HQMAnnouncerEvent::Found(addr) => (
                    HQMAnnouncer::Announcing { addr, left: ANNOUNCEMENTS },
                    HQMAnnouncerAction::Send(addr),
                ),
                _ => (HQMAnnouncer::Retrying, HQMAnnouncerAction::Sleep(RETRY_PAUSE)),
            },
            HQMAnnouncer::Retrying => (HQMAnnouncer::Asking, HQMAnnouncerAction::Ask),
            HQMAnnouncer::Announcing { addr, left } => match event {
                HQMAnnouncerEvent::Sent(true) => (
                    HQMAnnouncer::Pausing { addr, left: left - 1 },
                    HQMAnnouncerAction::Sleep(ANNOUNCEMENT_PAUSE),
                ),
                _ => (HQMAnnouncer::Asking, HQMAnnouncerAction::Ask),
            },
            HQMAnnouncer::Pausing { addr, left } => {
                if left > 0 {
                    (HQMAnnouncer::Announcing { addr, left }, HQMAnnouncerAction::Send(addr))
                } else {
                    (HQMAnnouncer::Asking, HQMAnnouncerAction::Ask)
                }
            },
        }
    }
}

} // verus!
