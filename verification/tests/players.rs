use hqm_server::game::{
    HQMGameValues, HQMObjectIndex, HQMReal, HQMRulesState, HQMServerConfiguration, HQMSkaterHand,
    HQMTeam, ReplayEnabled, ReplaySaving,
};
use hqm_server::message::HQMMessage;
use hqm_server::net::{HQMIpAddr, HQMSocketAddr};
use hqm_server::player::{
    HQMNetworkPlayerData, HQMServerPlayer, HQMServerPlayerData, HQMServerPlayerIndex,
};
use hqm_server::protocol::{HQMClientAction, HQMClientToServerMessage};
use hqm_server::server::HQMServer;
use hqm_server::session::HQMLeaving;
use std::borrow::Cow;

fn config() -> HQMServerConfiguration {
    HQMServerConfiguration {
        welcome: vec!["Welcome".to_string(), "Have fun".to_string()],
        password: "secret".to_string(),
        player_max: 10,
        replays_enabled: ReplayEnabled::On,
        replay_saving: ReplaySaving::File,
        server_name: "Rink".to_string(),
        server_service: None,
    }
}

fn values() -> HQMGameValues {
    HQMGameValues {
        rules_state: HQMRulesState::Regular { offside_warning: false, icing_warning: true },
        red_score: 1,
        blue_score: 2,
        period: 0,
        time: 30000,
        goal_message_timer: 0,
        game_over: false,
    }
}

fn server() -> HQMServer {
    HQMServer::new(config(), values())
}

fn addr(n: u32) -> HQMSocketAddr {
    HQMSocketAddr { ip: HQMIpAddr::V4(n), port: 27585, flowinfo: 0, scope_id: 0 }
}

fn join(s: &mut HQMServer, n: u32, name: &str) -> HQMServerPlayerIndex {
    s.player_join(addr(n), 55, name.to_string()).unwrap()
}

fn player(s: &HQMServer, index: HQMServerPlayerIndex) -> &HQMServerPlayer {
    s.players.get(index).unwrap()
}

fn data(s: &HQMServer, index: HQMServerPlayerIndex) -> &HQMNetworkPlayerData {
    match &player(s, index).data {
        HQMServerPlayerData::NetworkPlayer { data } => data,
    }
}

fn told(message: &HQMMessage) -> String {
    match message {
        HQMMessage::PlayerUpdate { player_name, object, player_index, in_server } => {
            format!("{} {:?} {} {}", player_name, object, player_index.0, in_server)
        }
        HQMMessage::Goal { team, goal_player_index, assist_player_index } => {
            format!("{:?} {:?} {:?}", team, goal_player_index, assist_player_index)
        }
        HQMMessage::Chat { player_index: Some(i), message } => format!("{}> {}", i.0, message),
        HQMMessage::Chat { player_index: None, message } => format!("> {}", message),
    }
}

/// What a player hears when the waiting messages are handed out.
fn hear(s: &mut HQMServer, index: HQMServerPlayerIndex) -> Vec<String> {
    let before = data(s, index).messages.len();
    s.deliver_messages();
    data(s, index).messages[before..].iter().map(|m| told(m)).collect()
}

#[test]
fn a_new_server_is_empty() {
    let s = server();
    assert_eq!(s.players.players.len(), 64);
    assert_eq!(s.player_count(), 0);
    assert_eq!(s.current_game_id(), 1);
    assert_eq!(s.game_step, u32::MAX);
    assert!(s.allow_join);
    assert!(!s.is_muted);
    assert_eq!(s.replay_data().len(), 0);
    assert!(s.players.iter().is_empty());
}

#[test]
fn who_joins_gets_the_first_free_slot() {
    let mut s = server();
    let a = join(&mut s, 1, "Ann");
    let b = join(&mut s, 2, "Bob");
    assert_eq!((a.0, b.0), (0, 1));
    assert_eq!(s.player_count(), 2);
    assert_eq!(s.find_player_slot(addr(2)), Some(b));
    assert_eq!(s.remove_player(a, true), None);
    assert_eq!(s.find_player_slot(addr(1)), None);
    assert_eq!(s.find_empty_player_slot(), Some(a));
    let c = join(&mut s, 3, "Cid");
    assert_eq!(c, a);
    let names: Vec<String> =
        s.players.iter().iter().map(|(i, p)| format!("{} {}", i.0, p.player_name)).collect();
    assert_eq!(names, vec!["0 Cid", "1 Bob"]);
}

#[test]
fn a_newcomer_starts_as_a_spectator() {
    let mut s = server();
    let a = join(&mut s, 1, "Ann");
    let p = player(&s, a);
    assert_eq!(p.player_name.as_str(), "Ann");
    assert_eq!(p.object, None);
    assert!(!p.is_admin);
    assert_eq!(p.hand, HQMSkaterHand::Right);
    assert_eq!(f32::from_bits(p.mass.bits), 1.0);
    assert_eq!(f32::from_bits(p.stick_limit.bits), 0.0);
    assert_eq!(p.addr(), Some(addr(1)));
    let d = data(&s, a);
    assert_eq!(d.known_packet, u32::MAX);
    assert_eq!(d.game_id, u32::MAX);
    assert_eq!(d.view_player_index, a);
    assert_eq!(d.inactivity, 0);
}

#[test]
fn identifiers_are_random() {
    let mut s = server();
    let a = join(&mut s, 1, "Ann");
    let b = join(&mut s, 2, "Bob");
    for i in [a, b] {
        let id = player(&s, i).id;
        assert_eq!((id >> 76) & 0xf, 4);
        assert_eq!((id >> 62) & 0x3, 2);
    }
    assert_ne!(player(&s, a).id, player(&s, b).id);
}

#[test]
fn a_newcomer_is_told_the_game_so_far() {
    let mut s = server();
    let a = join(&mut s, 1, "Ann");
    assert_eq!(hear(&mut s, a), vec!["Ann None 0 true", "> Welcome", "> Have fun"]);
    s.messages.add_goal_message(HQMTeam::Blue, Some(a), None);
    s.messages.add_server_chat_message(Cow::Borrowed("chat is not kept"));
    s.deliver_messages();
    let b = join(&mut s, 2, "Bob");
    let known: Vec<String> = data(&s, b).messages.iter().map(|m| told(m)).collect();
    assert_eq!(
        known,
        vec!["Ann None 0 true", "Blue Some(HQMServerPlayerIndex(0)) None"]
    );
    s.announce_join("Bob");
    assert_eq!(
        hear(&mut s, b),
        vec!["Bob None 1 true", "> Welcome", "> Have fun", "> Bob joined"]
    );
    assert_eq!(data(&s, a).messages.len(), 7);
}

#[test]
fn who_may_not_join() {
    let mut s = server();
    assert_eq!(s.player_join(addr(1), 54, "Old".to_string()), None);
    join(&mut s, 1, "Ann");
    assert_eq!(s.player_join(addr(1), 55, "Again".to_string()), None);
    s.ban_list.insert(HQMIpAddr::V4(9));
    assert_eq!(s.player_join(addr(9), 55, "Banned".to_string()), None);
    s.allow_join = false;
    assert_eq!(s.player_join(addr(2), 55, "Late".to_string()), None);
    s.allow_join = true;
    s.config.player_max = 1;
    assert_eq!(s.player_join(addr(2), 55, "Many".to_string()), None);
    s.config.player_max = 2;
    assert!(s.player_join(addr(2), 55, "Bob".to_string()).is_some());
    assert_eq!(s.player_count(), 2);
}

#[test]
fn all_slots_can_be_taken() {
    let mut s = server();
    s.config.player_max = 1000;
    for n in 0..64 {
        assert_eq!(join(&mut s, n, "P").0, n as usize);
    }
    assert_eq!(s.player_join(addr(64), 55, "P".to_string()), None);
    assert_eq!(s.find_empty_player_slot(), None);
}

#[test]
fn the_last_administrator_lets_everyone_in() {
    let mut s = server();
    let a = join(&mut s, 1, "Ann");
    let b = join(&mut s, 2, "Bob");
    let c = join(&mut s, 3, "Cid");
    for i in [a, b] {
        s.players.get_mut(i).unwrap().is_admin = true;
    }
    s.allow_join = false;
    s.remove_player(a, true);
    assert!(!s.allow_join);
    s.remove_player(c, true);
    assert!(!s.allow_join);
    s.remove_player(b, true);
    assert!(s.allow_join);
}

#[test]
fn a_departure_is_announced() {
    let mut s = server();
    let a = join(&mut s, 1, "Ann");
    let b = join(&mut s, 2, "Bob");
    s.spawn_skater(a, HQMTeam::Red, false, Some(HQMObjectIndex(4)));
    s.deliver_messages();
    let (index, name) = s.player_exit(addr(1)).unwrap();
    assert_eq!((index, name.as_str()), (a, "Ann"));
    assert_eq!(s.player_exit(addr(7)), None);
    assert_eq!(s.player_left(a, "Ann", HQMLeaving::Exited), Some(HQMObjectIndex(4)));
    assert_eq!(hear(&mut s, b), vec!["Ann None 0 false", "> Ann exited"]);
    assert_eq!(s.player_left(b, "Bob", HQMLeaving::TimedOut), None);
    assert_eq!(s.player_count(), 0);
    assert_eq!(s.remove_player(b, true), None);
    assert_eq!(s.remove_player(HQMServerPlayerIndex(64), true), None);
}

#[test]
fn a_departure_may_stay_out_of_the_replay() {
    let mut s = server();
    let a = join(&mut s, 1, "Ann");
    let b = join(&mut s, 2, "Bob");
    let recorded = s.messages.replay_messages.len();
    s.remove_player(a, false);
    assert_eq!(s.messages.replay_messages.len(), recorded);
    s.remove_player(b, true);
    assert_eq!(s.messages.replay_messages.len(), recorded + 1);
}

#[test]
fn skaters_come_and_go() {
    let mut s = server();
    let a = join(&mut s, 1, "Ann");
    let b = join(&mut s, 2, "Bob");
    s.view_player(b, a);
    s.deliver_messages();
    assert_eq!(s.spawn_skater(a, HQMTeam::Red, false, None), None);
    assert_eq!(player(&s, a).object, None);
    let made = Some(HQMObjectIndex(3));
    assert_eq!(s.spawn_skater(a, HQMTeam::Red, false, made), made);
    assert_eq!(player(&s, a).object, Some((HQMObjectIndex(3), HQMTeam::Red)));
    assert_eq!(data(&s, a).view_player_index, a);
    assert_eq!(hear(&mut s, b), vec!["Ann Some((HQMObjectIndex(3), Red)) 0 true"]);
    assert_eq!(s.spawn_skater(a, HQMTeam::Blue, false, None), None);
    assert_eq!(player(&s, a).object, Some((HQMObjectIndex(3), HQMTeam::Red)));
    assert_eq!(s.spawn_skater(a, HQMTeam::Blue, true, None), None);
    assert_eq!(player(&s, a).object, Some((HQMObjectIndex(3), HQMTeam::Blue)));
    let (index, team, p) = s.players.get_from_object_index(HQMObjectIndex(3)).unwrap();
    assert_eq!((index, team, p.player_name.as_str()), (a, HQMTeam::Blue, "Ann"));
    assert!(s.players.get_from_object_index(HQMObjectIndex(2)).is_none());
    assert!(!s.move_to_spectator(a, false));
    assert!(s.move_to_spectator(a, true));
    assert!(!s.move_to_spectator(a, true));
    assert_eq!(player(&s, a).object, None);
    assert_eq!(s.spawn_skater(HQMServerPlayerIndex(9), HQMTeam::Red, false, made), None);
}

#[test]
fn what_the_rink_is_asked_for() {
    let mut s = server();
    let a = join(&mut s, 1, "Ann");
    s.set_hand(HQMSkaterHand::Left, a, false);
    let (mass, stick_limit) =
        (HQMReal { bits: 1.0f32.to_bits() }, HQMReal { bits: 0.5f32.to_bits() });
    s.players.get_mut(a).unwrap().stick_limit = stick_limit;
    assert_eq!(s.object_of(a), None);
    assert_eq!(s.skater_wanted(a), Some((None, HQMSkaterHand::Left, mass, stick_limit)));
    let object = Some(HQMObjectIndex(5));
    s.spawn_skater(a, HQMTeam::Red, false, object);
    assert_eq!(s.object_of(a), object);
    assert_eq!(s.skater_wanted(a), Some((object, HQMSkaterHand::Left, mass, stick_limit)));
    for nobody in [HQMServerPlayerIndex(1), HQMServerPlayerIndex(64)] {
        assert_eq!(s.object_of(nobody), None);
        assert_eq!(s.skater_wanted(nobody), None);
    }
}

#[test]
fn hands_change_between_periods() {
    let mut s = server();
    let a = join(&mut s, 1, "Ann");
    s.deliver_messages();
    assert_eq!(s.set_hand(HQMSkaterHand::Left, a, false), None);
    assert_eq!(player(&s, a).hand, HQMSkaterHand::Left);
    s.spawn_skater(a, HQMTeam::Red, false, Some(HQMObjectIndex(3)));
    s.deliver_messages();
    assert_eq!(s.set_hand(HQMSkaterHand::Right, a, true), Some(HQMObjectIndex(3)));
    assert_eq!(s.set_hand(HQMSkaterHand::Right, a, false), None);
    s.values.period = 1;
    assert_eq!(s.set_hand(HQMSkaterHand::Left, a, true), None);
    assert_eq!(player(&s, a).hand, HQMSkaterHand::Left);
    assert_eq!(hear(&mut s, a), vec!["> Stick hand will change after next intermission"]);
    assert_eq!(s.set_hand(HQMSkaterHand::Left, HQMServerPlayerIndex(70), true), None);
}

#[test]
fn sticks_have_no_limit() {
    let mut s = server();
    let a = join(&mut s, 1, "Ann");
    s.players.get_mut(a).unwrap().stick_limit = HQMReal { bits: 1.5f32.to_bits() };
    s.deliver_messages();
    assert_eq!(s.set_stick_limit(HQMReal { bits: 2.0f32.to_bits() }, a), None);
    assert_eq!(f32::from_bits(player(&s, a).stick_limit.bits), 0.0);
    assert_eq!(hear(&mut s, a), vec!["> Stick speed limit is set to no"]);
}

#[test]
fn teams_talk_among_themselves() {
    let mut s = server();
    let a = join(&mut s, 1, "Ann");
    let b = join(&mut s, 2, "Bob");
    let c = join(&mut s, 3, "Cid");
    s.spawn_skater(a, HQMTeam::Red, false, Some(HQMObjectIndex(0)));
    s.spawn_skater(b, HQMTeam::Red, false, Some(HQMObjectIndex(1)));
    s.spawn_skater(c, HQMTeam::Blue, false, Some(HQMObjectIndex(2)));
    s.deliver_messages();
    let recorded = s.messages.replay_messages.len();
    let before = data(&s, b).messages.len();
    let own = data(&s, a).messages.len();
    let others = data(&s, c).messages.len();
    s.add_user_team_message("pass", a);
    let heard: Vec<String> = data(&s, b).messages[before..].iter().map(|m| told(m)).collect();
    assert_eq!(
        heard,
        vec![
            "[Red] Ann Some((HQMObjectIndex(0), Red)) 0 true",
            "0> pass",
            "Ann Some((HQMObjectIndex(0), Red)) 0 true"
        ]
    );
    assert_eq!(data(&s, a).messages.len(), own + 3);
    assert_eq!(data(&s, c).messages.len(), others);
    assert_eq!(s.messages.replay_messages.len(), recorded);
    s.move_to_spectator(a, true);
    let before = data(&s, b).messages.len();
    s.add_user_team_message("pass", a);
    assert_eq!(data(&s, b).messages.len(), before);
}

#[test]
fn messages_reach_those_they_are_for() {
    let mut s = server();
    let a = join(&mut s, 1, "Ann");
    let b = join(&mut s, 2, "Bob");
    s.deliver_messages();
    let start = data(&s, b).messages.len();
    s.messages.add_user_chat_message(Cow::Borrowed("all"), a);
    s.messages.add_directed_user_chat_message(Cow::Borrowed("you"), b, a);
    s.messages.add_directed_server_chat_message(Cow::Borrowed("server"), a);
    s.messages.add_directed_chat_message(Cow::Borrowed("gone"), HQMServerPlayerIndex(80), None);
    assert_eq!(hear(&mut s, a), vec!["0> all", "> server"]);
    let heard: Vec<String> = data(&s, b).messages[start..].iter().map(|m| told(m)).collect();
    assert_eq!(heard, vec!["0> all", "0> you"]);
    assert!(hear(&mut s, a).is_empty());
}

#[test]
fn silence_is_counted_and_limited() {
    let mut s = server();
    let a = join(&mut s, 1, "Ann");
    let b = join(&mut s, 2, "Bob");
    for _ in 0..500 {
        assert_eq!(s.remove_inactive_players().len(), 0);
    }
    if let HQMServerPlayerData::NetworkPlayer { data } = &mut s.players.get_mut(b).unwrap().data {
        data.inactivity = 0;
    }
    let gone = s.remove_inactive_players();
    assert_eq!(gone.len(), 1);
    let (index, name) = gone.get(0).unwrap();
    assert_eq!((index, name.as_str()), (a, "Ann"));
    assert_eq!(gone.get(1), None);
    assert_eq!(data(&s, a).inactivity, 501);
    assert_eq!(data(&s, b).inactivity, 1);
    assert!(s.can_age_players());
    if let HQMServerPlayerData::NetworkPlayer { data } = &mut s.players.get_mut(b).unwrap().data {
        data.inactivity = u32::MAX;
    }
    assert!(!s.can_age_players());
}

#[test]
fn clients_are_answered() {
    let mut s = server();
    let joined = s.handle_message(
        addr(1),
        HQMClientToServerMessage::Join { version: 55, player_name: "Ann".to_string() },
        0,
    );
    match joined {
        HQMClientAction::Joined { player_index, player_name } => {
            assert_eq!((player_index.0, player_name.as_str()), (0, "Ann"));
        }
        _ => panic!(),
    }
    let again = s.handle_message(
        addr(1),
        HQMClientToServerMessage::Join { version: 55, player_name: "Ann".to_string() },
        0,
    );
    assert!(matches!(again, HQMClientAction::Nothing));
    let info = s.handle_message(
        addr(5),
        HQMClientToServerMessage::ServerInfo { version: 55, ping: 77 },
        0,
    );
    assert!(matches!(info, HQMClientAction::SendInfo { ping: 77 }));
    match s.handle_message(addr(1), HQMClientToServerMessage::Exit, 0) {
        HQMClientAction::Exiting { player_index, player_name } => {
            assert_eq!((player_index.0, player_name.as_str()), (0, "Ann"));
        }
        _ => panic!(),
    }
    assert_eq!(s.player_count(), 1);
    let stranger = s.handle_message(addr(2), HQMClientToServerMessage::Exit, 0);
    assert!(matches!(stranger, HQMClientAction::Nothing));
}

#[test]
fn messages_can_be_copied() {
    let goal = HQMMessage::Goal {
        team: HQMTeam::Red,
        goal_player_index: None,
        assist_player_index: None,
    };
    let chat = HQMMessage::Chat { player_index: None, message: Cow::Owned("hi".to_string()) };
    assert_eq!(told(&goal.clone()), told(&goal));
    assert_eq!(told(&chat.clone()), "> hi");
}
