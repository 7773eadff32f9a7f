use hqm_server::commands::{HQMClientUpdate, HQMCommandAction, HQMLookup};
use hqm_server::game::{
    HQMClientVersion, HQMGameValues, HQMMuteStatus, HQMObjectIndex, HQMPlayerInput, HQMRulesState,
    HQMServerConfiguration, HQMSkaterHand, HQMTeam, ReplayEnabled, ReplaySaving,
};
use hqm_server::message::HQMMessage;
use hqm_server::net::{HQMIpAddr, HQMSocketAddr};
use hqm_server::player::{
    HQMNetworkPlayerData, HQMServerPlayer, HQMServerPlayerData, HQMServerPlayerIndex,
};
use hqm_server::protocol::{HQMClientAction, HQMClientToServerMessage};
use hqm_server::server::HQMServer;

fn config() -> HQMServerConfiguration {
    HQMServerConfiguration {
        welcome: vec!["Welcome".to_string(), "Have fun".to_string()],
        password: "secret".to_string(),
        player_max: 10,
        replays_enabled: ReplayEnabled::On,
        replay_saving: ReplaySaving::File,
        server_name: "Rink".to_string(),
        server_service: None,
    }
}

fn values() -> HQMGameValues {
    HQMGameValues {
        rules_state: HQMRulesState::Regular { offside_warning: false, icing_warning: true },
        red_score: 1,
        blue_score: 2,
        period: 0,
        time: 30000,
        goal_message_timer: 0,
        game_over: false,
    }
}

fn server() -> HQMServer {
    HQMServer::new(config(), values())
}

fn addr(n: u32) -> HQMSocketAddr {
    HQMSocketAddr { ip: HQMIpAddr::V4(n), port: 27585, flowinfo: 0, scope_id: 0 }
}

fn join(s: &mut HQMServer, n: u32, name: &str) -> HQMServerPlayerIndex {
    s.player_join(addr(n), 55, name.to_string()).unwrap()
}

fn player(s: &HQMServer, index: HQMServerPlayerIndex) -> &HQMServerPlayer {
    s.players.get(index).unwrap()
}

fn data(s: &HQMServer, index: HQMServerPlayerIndex) -> &HQMNetworkPlayerData {
    match &player(s, index).data {
        HQMServerPlayerData::NetworkPlayer { data } => data,
    }
}

fn told(message: &HQMMessage) -> String {
    match message {
        HQMMessage::PlayerUpdate { player_name, object, player_index, in_server } => {
            format!("{} {:?} {} {}", player_name, object, player_index.0, in_server)
        }
        HQMMessage::Goal { team, goal_player_index, assist_player_index } => {
            format!("{:?} {:?} {:?}", team, goal_player_index, assist_player_index)
        }
        HQMMessage::Chat { player_index: Some(i), message } => format!("{}> {}", i.0, message),
        HQMMessage::Chat { player_index: None, message } => format!("> {}", message),
    }
}

/// What a player hears when the waiting messages are handed out.
fn hear(s: &mut HQMServer, index: HQMServerPlayerIndex) -> Vec<String> {
    let before = data(s, index).messages.len();
    s.deliver_messages();
    data(s, index).messages[before..].iter().map(|m| told(m)).collect()
}

fn update(game_id: u32, known_packet: u32) -> HQMClientUpdate {
    HQMClientUpdate {
        current_game_id: game_id,
        input: HQMPlayerInput::default(),
        deltatime: None,
        new_known_packet: known_packet,
        known_msgpos: 0,
        client_version: HQMClientVersion::Ping,
    }
}

fn say(s: &mut HQMServer, index: HQMServerPlayerIndex, line: &str) -> HQMCommandAction {
    s.process_message(line.to_string(), index)
}

#[test]
fn plain_chat_reaches_everyone() {
    let mut s = server();
    let a = join(&mut s, 1, "Ann");
    let b = join(&mut s, 2, "Bob");
    s.deliver_messages();
    assert!(matches!(say(&mut s, a, "hello"), HQMCommandAction::Nothing));
    assert_eq!(hear(&mut s, b), vec!["0> hello"]);
    assert!(matches!(say(&mut s, HQMServerPlayerIndex(9), "hello"), HQMCommandAction::Nothing));
    assert!(hear(&mut s, b).is_empty());
}

#[test]
fn muted_players_are_not_heard() {
    let mut s = server();
    let a = join(&mut s, 1, "Ann");
    let b = join(&mut s, 2, "Bob");
    s.deliver_messages();
    s.players.get_mut(a).unwrap().is_muted = HQMMuteStatus::Muted;
    say(&mut s, a, "one");
    assert!(hear(&mut s, a).is_empty());
    s.players.get_mut(a).unwrap().is_muted = HQMMuteStatus::ShadowMuted;
    let before = data(&s, b).messages.len();
    say(&mut s, a, "two");
    assert_eq!(hear(&mut s, a), vec!["0> two"]);
    assert_eq!(data(&s, b).messages.len(), before);
    s.players.get_mut(a).unwrap().is_muted = HQMMuteStatus::NotMuted;
    s.is_muted = true;
    say(&mut s, a, "three");
    assert!(hear(&mut s, a).is_empty());
}

#[test]
fn commands_of_administrators() {
    let mut s = server();
    let a = join(&mut s, 1, "Ann");
    assert!(matches!(say(&mut s, a, "/enablejoin"), HQMCommandAction::SetAllowJoin(true)));
    assert!(matches!(say(&mut s, a, "/disablejoin"), HQMCommandAction::SetAllowJoin(false)));
    assert!(matches!(
        say(&mut s, a, "/mute 3"),
        HQMCommandAction::MutePlayer(HQMServerPlayerIndex(3))
    ));
    assert!(matches!(say(&mut s, a, "/mute x"), HQMCommandAction::Nothing));
    assert!(matches!(
        say(&mut s, a, "/unmute 3"),
        HQMCommandAction::UnmutePlayer(HQMServerPlayerIndex(3))
    ));
    assert!(matches!(say(&mut s, a, "/unmute"), HQMCommandAction::Nothing));
    assert!(matches!(say(&mut s, a, "/mutechat"), HQMCommandAction::MuteChat));
    assert!(matches!(say(&mut s, a, "/unmutechat"), HQMCommandAction::UnmuteChat));
    assert!(matches!(
        say(&mut s, a, "/kick 4"),
        HQMCommandAction::KickPlayer { player_index: HQMServerPlayerIndex(4), ban: false }
    ));
    assert!(matches!(
        say(&mut s, a, "/ban 4"),
        HQMCommandAction::KickPlayer { player_index: HQMServerPlayerIndex(4), ban: true }
    ));
    assert!(matches!(say(&mut s, a, "/kick Bob"), HQMCommandAction::Nothing));
    assert!(matches!(say(&mut s, a, "/ban Bob"), HQMCommandAction::Nothing));
    match say(&mut s, a, "/kickall B b") {
        HQMCommandAction::KickAllMatching { name, ban } => assert_eq!((name.as_str(), ban), ("B b", false)),
        _ => panic!(),
    }
    match say(&mut s, a, "/banall B b") {
        HQMCommandAction::KickAllMatching { name, ban } => assert_eq!((name.as_str(), ban), ("B b", true)),
        _ => panic!(),
    }
    assert!(matches!(say(&mut s, a, "/clearbans"), HQMCommandAction::ClearBans));
    match say(&mut s, a, "/admin pass word") {
        HQMCommandAction::AdminLogin { password } => assert_eq!(password, "pass word"),
        _ => panic!(),
    }
    assert!(matches!(say(&mut s, a, "/serverrestart"), HQMCommandAction::RestartServer));
}

#[test]
fn commands_of_players() {
    let mut s = server();
    let a = join(&mut s, 1, "Ann");
    s.deliver_messages();
    assert!(matches!(say(&mut s, a, "/lefty"), HQMCommandAction::SetHand(HQMSkaterHand::Left)));
    assert!(matches!(say(&mut s, a, "/righty"), HQMCommandAction::SetHand(HQMSkaterHand::Right)));
    assert!(matches!(say(&mut s, a, "/lm 3"), HQMCommandAction::Nothing));
    assert_eq!(hear(&mut s, a), vec!["> Stick limit is locked to 'no' on this server."]);
    s.spawn_skater(a, HQMTeam::Red, false, Some(HQMObjectIndex(0)));
    s.deliver_messages();
    let before = data(&s, a).messages.len();
    assert!(matches!(say(&mut s, a, "/t over here"), HQMCommandAction::Nothing));
    assert_eq!(told(&data(&s, a).messages[before + 1]), "0> over here");
    match say(&mut s, a, "/set hand left") {
        HQMCommandAction::Behaviour { command, arg } => {
            assert_eq!((command.as_str(), arg.as_str()), ("set", "hand left"));
        }
        _ => panic!(),
    }
    match say(&mut s, a, "/LIST") {
        HQMCommandAction::Behaviour { command, arg } => {
            assert_eq!((command.as_str(), arg.as_str()), ("LIST", ""));
        }
        _ => panic!(),
    }
}

#[test]
fn players_are_listed() {
    let mut s = server();
    let a = join(&mut s, 1, "Ann");
    for n in 2..9 {
        join(&mut s, n, &format!("P{}", n));
    }
    s.remove_player(HQMServerPlayerIndex(2), true);
    s.deliver_messages();
    say(&mut s, a, "/list");
    assert_eq!(hear(&mut s, a), vec!["> 0: Ann", "> 1: P2", "> 3: P4", "> 4: P5", "> 5: P6"]);
    say(&mut s, a, "/list 6");
    assert_eq!(hear(&mut s, a), vec!["> 6: P7", "> 7: P8"]);
    say(&mut s, a, "/list x");
    assert!(hear(&mut s, a).is_empty());
}

#[test]
fn players_are_found_whatever_the_case() {
    let mut s = server();
    let a = join(&mut s, 1, "ANNA");
    let b = join(&mut s, 2, "Hanna");
    join(&mut s, 3, "Bob");
    s.deliver_messages();
    let found = s.player_search("aNn");
    assert_eq!(found.len(), 2);
    assert_eq!(found.get(0).unwrap().0, a);
    assert_eq!(found.get(1).unwrap().1.as_str(), "Hanna");
    assert_eq!(s.player_search("").len(), 3);
    assert_eq!(s.player_search("zoe").len(), 0);
    say(&mut s, a, "/search ann");
    assert_eq!(hear(&mut s, a), vec!["> 0: ANNA", "> 1: Hanna"]);
    say(&mut s, b, "/search zoe");
    assert_eq!(hear(&mut s, b), vec!["> No matches found"]);
}

#[test]
fn a_search_finds_five_at_most() {
    let mut s = server();
    for n in 1..8 {
        join(&mut s, n, "Bob");
    }
    assert_eq!(s.player_search("b").len(), 5);
}

#[test]
fn names_are_looked_up() {
    let mut s = server();
    let a = join(&mut s, 1, "Ann");
    let b = join(&mut s, 2, "Anna");
    join(&mut s, 3, "Bob");
    join(&mut s, 4, "Bob");
    let (index, name) = s.player_exact_unique_match("Ann").unwrap();
    assert_eq!((index, name.as_str()), (a, "Ann"));
    assert_eq!(s.player_exact_unique_match("ann"), None);
    assert_eq!(s.player_exact_unique_match("Bob"), None);
    assert_eq!(s.player_exact_unique_match(""), None);
    assert!(matches!(s.lookup_player("Ann"), HQMLookup::One(HQMServerPlayerIndex(0))));
    match s.lookup_player("anna") {
        HQMLookup::One(found) => assert_eq!(found, b),
        _ => panic!(),
    }
    assert!(matches!(s.lookup_player("Zoe"), HQMLookup::Nobody));
    match s.lookup_player("Bob") {
        HQMLookup::Several(found) => assert_eq!(found.len(), 2),
        _ => panic!(),
    }
}

#[test]
fn spectators_choose_their_view() {
    let mut s = server();
    let a = join(&mut s, 1, "Ann");
    let b = join(&mut s, 2, "Bob");
    join(&mut s, 3, "Bobby");
    s.deliver_messages();
    say(&mut s, a, "/view 1");
    assert_eq!(data(&s, a).view_player_index, b);
    assert_eq!(hear(&mut s, a), vec!["> You are now viewing Bob"]);
    say(&mut s, a, "/view 1");
    assert!(hear(&mut s, a).is_empty());
    say(&mut s, a, "/view 0");
    assert_eq!(hear(&mut s, a), vec!["> View has been restored"]);
    say(&mut s, a, "/view 40");
    assert_eq!(hear(&mut s, a), vec!["> No player with this ID exists"]);
    say(&mut s, a, "/views bo");
    assert_eq!(
        hear(&mut s, a),
        vec!["> Multiple matches found, use /view X", "> 1: Bob", "> 2: Bobby"]
    );
    say(&mut s, a, "/views zoe");
    assert_eq!(hear(&mut s, a), vec!["> No matches found"]);
    say(&mut s, a, "/views Bob");
    assert_eq!(data(&s, a).view_player_index, b);
    s.deliver_messages();
    say(&mut s, a, "/restoreview");
    assert_eq!(data(&s, a).view_player_index, a);
    assert_eq!(hear(&mut s, a), vec!["> View has been restored"]);
    say(&mut s, a, "/restoreview");
    assert!(hear(&mut s, a).is_empty());
    s.spawn_skater(a, HQMTeam::Red, false, Some(HQMObjectIndex(0)));
    s.deliver_messages();
    say(&mut s, a, "/view 1");
    assert_eq!(hear(&mut s, a), vec!["> You must be a spectator to change view"]);
    assert_eq!(data(&s, a).view_player_index, a);
}

#[test]
fn round_trips_are_asked_for() {
    let mut s = server();
    let a = join(&mut s, 1, "Ann");
    let b = join(&mut s, 2, "Bob");
    if let HQMServerPlayerData::NetworkPlayer { data } = &mut s.players.get_mut(b).unwrap().data {
        data.last_ping.push_back(30);
        data.last_ping.push_back(20);
    }
    s.deliver_messages();
    for line in ["/ping 1", "/pings Bob", "/pings bo"] {
        match say(&mut s, a, line) {
            HQMCommandAction::ReportPing { player_name, pings } => {
                assert_eq!(player_name.as_str(), "Bob");
                assert_eq!(pings, vec![30, 20]);
            }
            _ => panic!(),
        }
    }
    assert!(matches!(say(&mut s, a, "/ping 9"), HQMCommandAction::Nothing));
    assert_eq!(hear(&mut s, a), vec!["> No player with this ID exists"]);
    assert!(matches!(say(&mut s, a, "/ping Bob"), HQMCommandAction::Nothing));
    assert!(matches!(say(&mut s, a, "/pings zoe"), HQMCommandAction::Nothing));
    assert_eq!(hear(&mut s, a), vec!["> No matches found"]);
    join(&mut s, 3, "Bob");
    s.deliver_messages();
    assert!(matches!(say(&mut s, a, "/pings Bob"), HQMCommandAction::Nothing));
    assert_eq!(
        hear(&mut s, a),
        vec!["> Multiple matches found, use /ping X", "> 1: Bob", "> 2: Bob"]
    );
}

#[test]
fn updates_are_taken_over() {
    let mut s = server();
    let a = join(&mut s, 1, "Ann");
    if let HQMServerPlayerData::NetworkPlayer { data } = &mut s.players.get_mut(a).unwrap().data {
        data.inactivity = 77;
    }
    let mut u = update(1, 5);
    u.deltatime = Some(9);
    u.known_msgpos = 2;
    u.input.keys = 16;
    assert!(s.player_update(addr(1), u, None, 0).is_some());
    let d = data(&s, a);
    assert_eq!((d.game_id, d.known_packet, d.known_msgpos), (1, 5, 2));
    assert_eq!((d.inactivity, d.deltatime), (0, 9));
    assert_eq!(d.client_version, HQMClientVersion::Ping);
    assert_eq!(player(&s, a).input.keys, 16);
    assert!(s.player_update(addr(1), update(1, 6), None, 0).is_some());
    assert_eq!(data(&s, a).deltatime, 9);
    assert!(s.player_update(addr(2), update(1, 6), None, 0).is_none());
}

#[test]
fn round_trips_are_measured() {
    let mut s = server();
    let a = join(&mut s, 1, "Ann");
    s.packet = 10;
    s.saved_pings.push_back(1000);
    s.saved_pings.push_back(900);
    s.player_update(addr(1), update(1, 8), None, 2000);
    assert_eq!(data(&s, a).last_ping.len(), 0);
    s.player_update(addr(1), update(1, 9), None, 2000);
    assert_eq!(data(&s, a).last_ping, vec![1100]);
    s.player_update(addr(1), update(1, 9), None, 2100);
    assert_eq!(data(&s, a).last_ping.len(), 1);
    s.player_update(addr(1), update(1, 10), None, 999);
    assert_eq!(data(&s, a).last_ping.len(), 1);
    s.packet = 11;
    s.saved_pings.push_front(1100);
    s.player_update(addr(1), update(1, 11), None, 1150);
    assert_eq!(data(&s, a).last_ping, vec![50, 1100]);
    s.player_update(addr(1), update(1, 12), None, 3000);
    assert_eq!(data(&s, a).last_ping.len(), 2);
}

#[test]
fn a_hundred_round_trips_are_kept() {
    let mut s = server();
    let a = join(&mut s, 1, "Ann");
    s.player_update(addr(1), update(1, 0), None, 0);
    s.saved_pings.push_back(0);
    for n in 1..=120u32 {
        s.packet = n;
        s.player_update(addr(1), update(1, n), None, n as u64);
    }
    assert_eq!(data(&s, a).last_ping.len(), 100);
    assert_eq!(data(&s, a).last_ping[0], 120);
    assert_eq!(data(&s, a).last_ping[99], 21);
}

#[test]
fn repeated_chat_counts_once() {
    let mut s = server();
    let a = join(&mut s, 1, "Ann");
    s.deliver_messages();
    let chat = |rep: u8| HQMClientToServerMessage::Update {
        update: update(1, 1),
        chat: Some((rep, "hello".to_string())),
    };
    for _ in 0..3 {
        assert!(matches!(
            s.handle_message(addr(1), chat(1), 0),
            HQMClientAction::Command { action: HQMCommandAction::Nothing, .. }
        ));
    }
    assert_eq!(hear(&mut s, a), vec!["0> hello"]);
    s.handle_message(addr(1), chat(2), 0);
    assert_eq!(hear(&mut s, a), vec!["0> hello"]);
    let command = HQMClientToServerMessage::Update {
        update: update(1, 1),
        chat: Some((3, "/kick 2".to_string())),
    };
    match s.handle_message(addr(1), command, 0) {
        HQMClientAction::Command { player_index, action } => {
            assert_eq!(player_index, a);
            assert!(matches!(action, HQMCommandAction::KickPlayer { ban: false, .. }));
        }
        _ => panic!(),
    }
    assert!(matches!(s.handle_message(addr(4), chat(1), 0), HQMClientAction::Nothing));
}
