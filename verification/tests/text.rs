use hqm_server::master::{
    read_master_server, write_announcement, HQMAnnouncer, HQMAnnouncerAction, HQMAnnouncerEvent,
};
use hqm_server::net::{HQMBanList, HQMIpAddr, HQMSocketAddr};
use hqm_server::player::HQMServerPlayerIndex;
use hqm_server::text::{
    contains_text, number_text, read_index, same_text, split_command, write_numbered_line,
};
use std::num::IntErrorKind;

#[test]
fn slots_are_shown_in_decimal() {
    assert_eq!(HQMServerPlayerIndex(0).to_text(), "0");
    assert_eq!(HQMServerPlayerIndex(63).to_text(), "63");
}

#[test]
fn slots_are_read_back() {
    for n in [0usize, 9, 10, 63, 1000, usize::MAX] {
        let index = HQMServerPlayerIndex(n);
        assert_eq!(HQMServerPlayerIndex::from_str(&index.to_text()), Ok(index));
    }
    assert_eq!(HQMServerPlayerIndex::from_str("+7"), Ok(HQMServerPlayerIndex(7)));
    assert_eq!(HQMServerPlayerIndex::from_str("007"), Ok(HQMServerPlayerIndex(7)));
}

#[test]
fn what_is_not_a_slot() {
    let many = "99999999999999999999999";
    for s in ["", "+", "-1", " 1", "1 ", "x", "++1", many] {
        assert_eq!(
            HQMServerPlayerIndex::from_str(s).unwrap_err(),
            s.parse::<usize>().unwrap_err()
        );
    }
    let why = |s: &str| HQMServerPlayerIndex::from_str(s).unwrap_err().kind().clone();
    assert_eq!(why(""), IntErrorKind::Empty);
    assert_eq!(why("x"), IntErrorKind::InvalidDigit);
    assert_eq!(why("-1"), IntErrorKind::InvalidDigit);
    assert_eq!(why(many), IntErrorKind::PosOverflow);
    assert_eq!(read_index("12"), Some(12));
    assert_eq!(read_index("1.5"), None);
}

#[test]
fn texts_are_compared_by_their_characters() {
    assert!(same_text("", ""));
    assert!(same_text("\u{e9}t\u{e9}", "\u{e9}t\u{e9}"));
    assert!(!same_text("list", "lisT"));
    assert!(!same_text("list", "lists"));
    for (hay, needle) in [
        ("hanna", "ann"),
        ("hanna", ""),
        ("", ""),
        ("", "a"),
        ("ann", "hanna"),
        ("hanna", "na"),
        ("aab", "ab"),
        ("hanna", "anx"),
        ("\u{e9}t\u{e9}", "t\u{e9}"),
    ] {
        assert_eq!(contains_text(hay, needle), hay.contains(needle));
    }
}

#[test]
fn numbers_are_written_in_decimal() {
    for n in [0usize, 7, 10, 99, 100, 12345, usize::MAX] {
        assert_eq!(number_text(n), n.to_string());
    }
}

#[test]
fn lines_of_a_listing() {
    assert_eq!(write_numbered_line(12, "Ann"), "12: Ann");
}

#[test]
fn commands_are_split_at_the_first_space() {
    let split = |s: &str| split_command(s);
    assert_eq!(split("hello /kick"), None);
    assert_eq!(split(""), None);
    assert_eq!(split("/"), Some((String::new(), String::new())));
    assert_eq!(split("/list"), Some(("list".to_string(), String::new())));
    assert_eq!(split("/list "), Some(("list".to_string(), String::new())));
    assert_eq!(split("/kick 3 now"), Some(("kick".to_string(), "3 now".to_string())));
    assert_eq!(split("/t  hi"), Some(("t".to_string(), " hi".to_string())));
    assert_eq!(split("/search \u{e9}t\u{e9}"), Some(("search".to_string(), "\u{e9}t\u{e9}".to_string())));
}

#[test]
fn bans_are_by_host() {
    let mut bans = HQMBanList::new();
    assert!(!bans.contains(HQMIpAddr::V4(1)));
    bans.insert(HQMIpAddr::V4(1));
    bans.insert(HQMIpAddr::V6(2));
    assert!(bans.contains(HQMIpAddr::V4(1)));
    assert!(!bans.contains(HQMIpAddr::V6(1)));
    assert!(bans.contains(HQMIpAddr::V6(2)));
    bans.clear();
    assert!(!bans.contains(HQMIpAddr::V4(1)));
    assert!(!bans.contains(HQMIpAddr::V6(2)));
}

#[test]
fn answers_of_the_list_of_servers() {
    assert_eq!(
        read_master_server("Address 66.226.72.227 27590"),
        ("66.226.72.227".to_string(), Some(27590))
    );
    assert_eq!(read_master_server("\n a\tb\r\n  +80 c"), ("b".to_string(), Some(80)));
    assert_eq!(read_master_server("a b 65536"), ("b".to_string(), None));
    assert_eq!(read_master_server("a b"), ("b".to_string(), None));
    assert_eq!(read_master_server("a"), (String::new(), None));
    assert_eq!(read_master_server(""), (String::new(), None));
}

#[test]
fn the_server_is_announced_sixty_times() {
    assert_eq!(write_announcement(), b"Hock\x20".to_vec());
    let addr = HQMSocketAddr { ip: HQMIpAddr::V4(1), port: 2, flowinfo: 0, scope_id: 0 };
    let mut phase = HQMAnnouncer::Asking;
    let mut event = HQMAnnouncerEvent::Found(addr);
    let mut sent = 0;
    loop {
        assert!(phase.can_step(&event));
        let (next, action) = phase.step(event);
        phase = next;
        event = match action {
            HQMAnnouncerAction::Send(to) => {
                assert_eq!(to, addr);
                sent += 1;
                HQMAnnouncerEvent::Sent(true)
            }
            HQMAnnouncerAction::Sleep(seconds) => {
                assert_eq!(seconds, 10);
                HQMAnnouncerEvent::Slept
            }
            HQMAnnouncerAction::Ask => break,
        }
    }
    assert_eq!(sent, 60);
    assert_eq!(phase, HQMAnnouncer::Asking);
}

#[test]
fn announcing_starts_over_when_something_fails() {
    let addr = HQMSocketAddr { ip: HQMIpAddr::V4(1), port: 2, flowinfo: 0, scope_id: 0 };
    assert!(!HQMAnnouncer::Asking.can_step(&HQMAnnouncerEvent::Slept));
    assert!(!HQMAnnouncer::Announcing { addr, left: 0 }.can_step(&HQMAnnouncerEvent::Sent(true)));
    let (retrying, action) = HQMAnnouncer::Asking.step(HQMAnnouncerEvent::NotFound);
    assert_eq!(action, HQMAnnouncerAction::Sleep(15));
    assert_eq!(
        retrying.step(HQMAnnouncerEvent::Slept),
        (HQMAnnouncer::Asking, HQMAnnouncerAction::Ask)
    );
    let (announcing, _) = HQMAnnouncer::Asking.step(HQMAnnouncerEvent::Found(addr));
    assert_eq!(
        announcing.step(HQMAnnouncerEvent::Sent(false)),
        (HQMAnnouncer::Asking, HQMAnnouncerAction::Ask)
    );
}
