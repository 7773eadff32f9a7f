use hqm_server::game::{
    HQMClientVersion, HQMGameValues, HQMInitialGameValues, HQMObjectIndex, HQMObjectPacket,
    HQMRulesState, HQMServerConfiguration, HQMSimulationEvent, HQMTeam, ReplayEnabled,
    ReplaySaving,
};
use hqm_server::message::HQMMessage;
use hqm_server::net::{HQMIpAddr, HQMSocketAddr};
use hqm_server::player::{
    HQMNetworkPlayerData, HQMServerPlayer, HQMServerPlayerData, HQMServerPlayerIndex,
};
use hqm_server::replay::{name_replay, pack_replay};
use hqm_server::server::HQMServer;
use hqm_server::tick::{HQMTickAction, HQMTickEvent, HQMTickPhase};
use hqm_server::wire::{HQMUpdate, HQMWireField};
use std::borrow::Cow;

fn config() -> HQMServerConfiguration {
    HQMServerConfiguration {
        welcome: vec!["Welcome".to_string(), "Have fun".to_string()],
        password: "secret".to_string(),
        player_max: 10,
        replays_enabled: ReplayEnabled::On,
        replay_saving: ReplaySaving::File,
        server_name: "Rink".to_string(),
        server_service: None,
    }
}

fn values() -> HQMGameValues {
    HQMGameValues {
        rules_state: HQMRulesState::Regular { offside_warning: false, icing_warning: true },
        red_score: 1,
        blue_score: 2,
        period: 0,
        time: 30000,
        goal_message_timer: 0,
        game_over: false,
    }
}

fn server() -> HQMServer {
    HQMServer::new(config(), values())
}

fn addr(n: u32) -> HQMSocketAddr {
    HQMSocketAddr { ip: HQMIpAddr::V4(n), port: 27585, flowinfo: 0, scope_id: 0 }
}

fn join(s: &mut HQMServer, n: u32, name: &str) -> HQMServerPlayerIndex {
    s.player_join(addr(n), 55, name.to_string()).unwrap()
}

fn player(s: &HQMServer, index: HQMServerPlayerIndex) -> &HQMServerPlayer {
    s.players.get(index).unwrap()
}

fn data(s: &HQMServer, index: HQMServerPlayerIndex) -> &HQMNetworkPlayerData {
    match &player(s, index).data {
        HQMServerPlayerData::NetworkPlayer { data } => data,
    }
}

fn told(message: &HQMMessage) -> String {
    match message {
        HQMMessage::PlayerUpdate { player_name, object, player_index, in_server } => {
            format!("{} {:?} {} {}", player_name, object, player_index.0, in_server)
        }
        HQMMessage::Goal { team, goal_player_index, assist_player_index } => {
            format!("{:?} {:?} {:?}", team, goal_player_index, assist_player_index)
        }
        HQMMessage::Chat { player_index: Some(i), message } => format!("{}> {}", i.0, message),
        HQMMessage::Chat { player_index: None, message } => format!("> {}", message),
    }
}

/// What a player hears when the waiting messages are handed out.
fn hear(s: &mut HQMServer, index: HQMServerPlayerIndex) -> Vec<String> {
    let before = data(s, index).messages.len();
    s.deliver_messages();
    data(s, index).messages[before..].iter().map(|m| told(m)).collect()
}

fn enter(s: &mut HQMServer, index: HQMServerPlayerIndex, game_id: u32) {
    let d = match &mut s.players.get_mut(index).unwrap().data {
        HQMServerPlayerData::NetworkPlayer { data } => data,
    };
    d.game_id = game_id;
}

fn field(f: &HQMWireField) -> String {
    match f {
        HQMWireField::Bytes(bytes) => format!("bytes {:?}", bytes),
        HQMWireField::PaddedBytes { width, bytes } => format!("padded {} {:?}", width, bytes),
        HQMWireField::Byte(value) => format!("byte {}", value),
        HQMWireField::Word(value) => format!("word {}", value),
        HQMWireField::Bits { count, value } => format!("bits {} {}", count, value),
        HQMWireField::Objects { current_packet, known_packet } => {
            format!("objects {} {}", current_packet, known_packet)
        }
        HQMWireField::Message(message) => told(message),
        HQMWireField::ReplayFix => "fix".to_string(),
    }
}

fn fields(s: &[HQMWireField]) -> Vec<String> {
    s.iter().map(field).collect()
}

const HEADER: &str = "bytes [72, 111, 99, 107]";

fn packets(n: u32) -> [HQMObjectPacket; 32] {
    let mut r = [HQMObjectPacket::Empty; 32];
    r[0] = HQMObjectPacket::Puck { pos: (n, 0, 0), rot: (0, 0) };
    r
}

fn initial() -> HQMInitialGameValues<u8> {
    HQMInitialGameValues { values: values(), puck_slots: 3, physics_configuration: 7 }
}

type Step = (HQMTickPhase, HQMTickAction<u8>);

fn step(s: &mut HQMServer, phase: HQMTickPhase, event: HQMTickEvent<u8>, now: u64) -> Step {
    assert!(s.can_tick(&phase, &event));
    s.tick(phase, event, now)
}

/// Runs a tick to its end; returns what it did, and the packets to clients.
fn run_tick(
    s: &mut HQMServer,
    n: u32,
    events: &[HQMSimulationEvent],
    record: Option<Vec<u8>>,
) -> (Vec<&'static str>, Vec<HQMUpdate>, Vec<(HQMObjectIndex, HQMObjectIndex)>) {
    let mut log = vec![];
    let mut sent = vec![];
    let mut limited = vec![];
    let mut phase = HQMTickPhase::Idle;
    let mut event = HQMTickEvent::Timer;
    loop {
        let (next, action) = step(s, phase, event, n as u64 * 10);
        phase = next;
        event = match action {
            HQMTickAction::Rest => return (log, sent, limited),
            HQMTickAction::AskInitialValues => {
                log.push("ask values");
                HQMTickEvent::InitialValues(initial())
            }
            HQMTickAction::EnterNewGame(game) => {
                log.push("new game");
                assert_eq!((game.puck_slots, game.physics_configuration), (3, 7));
                HQMTickEvent::Done
            }
            HQMTickAction::TellGameStarted => {
                log.push("started");
                HQMTickEvent::Done
            }
            HQMTickAction::TellExit(_) => {
                log.push("exit");
                HQMTickEvent::Done
            }
            HQMTickAction::TakeOffRink(_) => {
                log.push("off");
                HQMTickEvent::Done
            }
            HQMTickAction::TellBeforeTick => {
                log.push("before");
                HQMTickEvent::Done
            }
            HQMTickAction::Simulate(_) => {
                log.push("simulate");
                HQMTickEvent::Simulated(events.to_vec())
            }
            HQMTickAction::LimitPucks(touches) => {
                log.push("limit");
                limited = touches;
                HQMTickEvent::Packets(packets(n))
            }
            HQMTickAction::AskReplay => {
                log.push("ask replay");
                HQMTickEvent::ReplayDecision(record.is_some())
            }
            HQMTickAction::WriteReplay(_) => {
                log.push("write");
                HQMTickEvent::ReplayWritten(record.clone().unwrap())
            }
            HQMTickAction::Send(updates) => {
                log.push("send");
                sent = updates;
                HQMTickEvent::Done
            }
        }
    }
}

#[test]
fn a_client_asks_about_the_server() {
    let mut s = server();
    join(&mut s, 1, "Ann");
    join(&mut s, 2, "Bob");
    assert_eq!(
        fields(&s.request_info(1234, 5)),
        vec![
            HEADER,
            "byte 1",
            "bits 8 55",
            "word 1234",
            "bits 8 2",
            "bits 4 4",
            "bits 4 5",
            "padded 32 [82, 105, 110, 107]"
        ]
    );
}

#[test]
fn a_client_of_another_game_is_told_its_number() {
    let mut s = server();
    let a = join(&mut s, 1, "Ann");
    let d = data(&s, a);
    assert_eq!(fields(&s.write_update(d, 5, None)), vec![HEADER, "byte 6", "word 1"]);
}

#[test]
fn a_client_is_told_of_the_tick() {
    let mut s = server();
    let a = join(&mut s, 1, "Ann");
    s.deliver_messages();
    enter(&mut s, a, 1);
    s.packet = 8;
    let basic = vec![
        HEADER,
        "byte 5",
        "word 1",
        "word 5",
        "bits 1 0",
        "bits 8 1",
        "bits 8 2",
        "bits 16 30000",
        "bits 16 0",
        "bits 8 0",
        "bits 8 0",
        "objects 8 4294967295",
        "bits 4 3",
        "bits 16 0",
        "Ann None 0 true",
        "> Welcome",
        "> Have fun",
    ];
    assert_eq!(fields(&s.write_update(data(&s, a), 5, None)), basic);
    if let HQMServerPlayerData::NetworkPlayer { data } = &mut s.players.get_mut(a).unwrap().data {
        data.client_version = HQMClientVersion::PingRules;
        data.deltatime = 99;
        data.known_msgpos = 2;
        data.known_packet = 6;
    }
    s.values.game_over = true;
    let view = Some(HQMServerPlayerIndex(3));
    assert_eq!(
        fields(&s.write_update(data(&s, a), 6, view)),
        vec![
            HEADER,
            "byte 5",
            "word 1",
            "word 6",
            "bits 1 1",
            "bits 8 1",
            "bits 8 2",
            "bits 16 30000",
            "bits 16 0",
            "bits 8 0",
            "bits 8 3",
            "word 99",
            "word 2",
            "objects 8 6",
            "bits 4 1",
            "bits 16 2",
            "> Have fun"
        ]
    );
    if let HQMServerPlayerData::NetworkPlayer { data } = &mut s.players.get_mut(a).unwrap().data {
        data.client_version = HQMClientVersion::Ping;
        data.known_msgpos = 50;
    }
    let told = fields(&s.write_update(data(&s, a), 6, view));
    assert_eq!(told[11..], ["word 99", "objects 8 6", "bits 4 0", "bits 16 3"]);
}

#[test]
fn fifteen_messages_at_a_time() {
    let mut s = server();
    let a = join(&mut s, 1, "Ann");
    enter(&mut s, a, 1);
    for n in 0..30 {
        s.messages.add_server_chat_message(Cow::Owned(format!("line {}", n)));
    }
    s.deliver_messages();
    assert_eq!(data(&s, a).messages.len(), 33);
    let mut read = vec![];
    for (from, count) in [(0, 15), (15, 15), (30, 3), (33, 0)] {
        let told = fields(&s.write_update(data(&s, a), 0, None));
        assert_eq!(told[12], format!("bits 4 {}", count));
        assert_eq!(told[13], format!("bits 16 {}", from));
        read.extend_from_slice(&told[14..]);
        if let HQMServerPlayerData::NetworkPlayer { data } = &mut s.players.get_mut(a).unwrap().data {
            data.known_msgpos = from + count;
        }
    }
    let all: Vec<String> = data(&s, a).messages.iter().map(|m| told(m)).collect();
    assert_eq!(read, all);
}

#[test]
fn every_client_gets_an_update() {
    let mut s = server();
    join(&mut s, 1, "Ann");
    let b = join(&mut s, 2, "Bob");
    join(&mut s, 3, "Cid");
    s.remove_player(b, true);
    let sent = s.send_updates(1, None);
    assert_eq!(sent.len(), 2);
    assert_eq!((sent[0].addr, sent[1].addr), (addr(1), addr(3)));
    assert_eq!(fields(&sent[1].fields), vec![HEADER, "byte 6", "word 1"]);
}

#[test]
fn every_message_is_recorded_once() {
    let mut s = server();
    join(&mut s, 1, "Ann");
    s.packet = 3;
    assert_eq!(
        fields(&s.write_replay()),
        vec![
            "byte 5",
            "bits 1 0",
            "bits 8 1",
            "bits 8 2",
            "bits 16 30000",
            "bits 16 0",
            "bits 8 0",
            "objects 3 4294967295",
            "bits 16 1",
            "bits 16 0",
            "Ann None 0 true",
            "fix"
        ]
    );
    s.packet = 4;
    s.messages.add_goal_message(HQMTeam::Red, None, None);
    s.messages.add_directed_server_chat_message(Cow::Borrowed("private"), HQMServerPlayerIndex(0));
    let second = fields(&s.write_replay());
    assert_eq!(
        second[7..],
        ["objects 4 3", "bits 16 1", "bits 16 1", "Red None None", "fix"]
    );
    let third = fields(&s.write_replay());
    assert_eq!(third[7..], ["objects 4 4", "bits 16 0", "bits 16 2", "fix"]);
}

#[test]
fn stored_replays_say_how_long_they_are() {
    let mut bytes = vec![0u8, 0, 0, 0, 0x2c, 1, 0, 0];
    bytes.resize(308, 9);
    assert_eq!(pack_replay(&[9u8; 300]).as_ref(), bytes.as_slice());
    assert_eq!(pack_replay(&[]).as_ref(), &[0u8; 8]);
    assert_eq!(name_replay("Rink", "now"), "Rink.now.hrp");
}

#[test]
fn a_new_game_starts_over() {
    let mut s = server();
    let a = join(&mut s, 1, "Ann");
    let b = join(&mut s, 2, "Bob");
    s.spawn_skater(a, HQMTeam::Red, false, Some(HQMObjectIndex(0)));
    s.players.get_mut(b).unwrap().is_admin = true;
    run_tick(&mut s, 1, &[], Some(vec![1, 2, 3]));
    assert_eq!(s.replay_data(), &[1, 2, 3]);
    s.start_time = 1_000_000_000;
    let mut v = initial();
    v.values.red_score = 0;
    let game = s.new_game(v);
    let replay = game.replay.unwrap();
    assert_eq!(replay.time, "2001-09-09T014640");
    assert_eq!(replay.server_name, "Rink");
    assert_eq!(replay.file_name, "Rink.2001-09-09T014640.hrp");
    assert_eq!(replay.data.as_ref(), &[0, 0, 0, 0, 3, 0, 0, 0, 1, 2, 3]);
    assert_eq!(s.current_game_id(), 2);
    assert_eq!(s.values.red_score, 0);
    assert_eq!((s.game_step, s.packet), (u32::MAX, u32::MAX));
    assert_eq!((s.saved_packets.len(), s.saved_pings.len()), (0, 0));
    assert_eq!(s.replay_data().len(), 0);
    assert!(!s.has_current_game_been_active);
    assert_eq!(s.player_count(), 2);
    assert_eq!(player(&s, a).object, None);
    assert!(player(&s, b).is_admin);
    assert_eq!(data(&s, a).messages.len(), 0);
    assert_eq!(hear(&mut s, a), vec!["Ann None 0 true", "Bob None 1 true"]);
    assert!(s.new_game(initial()).replay.is_none());
}

#[test]
fn replays_are_named_by_when_they_began() {
    for (start_time, text) in [
        (0, "1970-01-01T000000"),
        (-1, "1969-12-31T235959"),
        (8_210_266_876_799, "+262142-12-31T235959"),
        (-8_334_601_228_800, "-262143-01-01T000000"),
    ] {
        let mut s = server();
        s.append_replay_data(&[1]);
        s.start_time = start_time;
        assert!(s.is_well_formed());
        assert_eq!(s.new_game(initial()).replay.unwrap().time, text);
    }
    let mut s = server();
    s.start_time = -8_334_601_228_801;
    assert!(!s.is_well_formed());
    s.start_time = 8_210_266_876_800;
    assert!(!s.is_well_formed());
}

#[test]
fn replays_are_stored_only_when_they_are_on() {
    for (enabled, stored) in
        [(ReplayEnabled::On, true), (ReplayEnabled::Standby, false), (ReplayEnabled::Off, false)]
    {
        let mut s = server();
        s.config.replays_enabled = enabled;
        assert!(s.has_replay_room(3));
        s.append_replay_data(&[1, 2, 3]);
        assert_eq!(s.new_game(initial()).replay.is_some(), stored);
    }
}

#[test]
fn a_tick_from_start_to_end() {
    let mut s = server();
    assert_eq!(run_tick(&mut s, 0, &[], None).0, Vec::<&str>::new());
    join(&mut s, 1, "Ann");
    let (log, sent, _) = run_tick(&mut s, 1, &[], Some(vec![5]));
    assert_eq!(
        log,
        vec!["started", "before", "simulate", "limit", "ask replay", "write", "send"]
    );
    assert_eq!(sent.len(), 1);
    assert!(s.start_time > 1_600_000_000);
    assert!(s.has_current_game_been_active);
    assert_eq!((s.game_step, s.packet), (0, 0));
    assert_eq!(s.saved_packets[0], packets(1));
    assert_eq!(s.saved_pings[0], 10);
    assert_eq!(s.replay_data(), &[5]);
    let (log, _, _) = run_tick(&mut s, 2, &[], None);
    assert_eq!(log, vec!["before", "simulate", "limit", "ask replay", "send"]);
    s.config.replays_enabled = ReplayEnabled::Off;
    let (log, _, _) = run_tick(&mut s, 3, &[], None);
    assert_eq!(log, vec!["before", "simulate", "limit", "send"]);
    assert_eq!((s.game_step, s.packet), (2, 2));
}

#[test]
fn an_abandoned_game_makes_way_for_a_new_one() {
    let mut s = server();
    let a = join(&mut s, 1, "Ann");
    run_tick(&mut s, 1, &[], None);
    s.remove_player(a, true);
    s.allow_join = false;
    let (log, _, _) = run_tick(&mut s, 2, &[], None);
    assert_eq!(log, vec!["ask values", "new game"]);
    assert_eq!(s.current_game_id(), 2);
    assert!(s.allow_join);
    assert!(!s.has_current_game_been_active);
    assert!(run_tick(&mut s, 3, &[], None).0.is_empty());
}

#[test]
fn silent_players_time_out() {
    let mut s = server();
    let a = join(&mut s, 1, "Ann");
    let b = join(&mut s, 2, "Bob");
    let c = join(&mut s, 3, "Cid");
    run_tick(&mut s, 1, &[], None);
    for i in [a, c] {
        if let HQMServerPlayerData::NetworkPlayer { data } = &mut s.players.get_mut(i).unwrap().data {
            data.inactivity = 500;
        }
    }
    let before = data(&s, b).messages.len();
    let (log, sent, _) = run_tick(&mut s, 2, &[], None);
    assert_eq!(
        log,
        vec!["exit", "off", "exit", "off", "before", "simulate", "limit", "ask replay", "send"]
    );
    assert_eq!(sent.len(), 1);
    assert_eq!(s.player_count(), 1);
    let heard: Vec<String> = data(&s, b).messages[before..].iter().map(|m| told(m)).collect();
    assert_eq!(
        heard,
        vec!["Ann None 0 false", "> Ann timed out", "Cid None 2 false", "> Cid timed out"]
    );
}

#[test]
fn nobody_misses_what_lasts() {
    let mut s = server();
    let a = join(&mut s, 1, "Ann");
    let b = join(&mut s, 2, "Bob");
    s.spawn_skater(a, HQMTeam::Red, false, Some(HQMObjectIndex(0)));
    run_tick(&mut s, 1, &[], None);
    s.messages.add_goal_message(HQMTeam::Red, Some(a), None);
    let c = join(&mut s, 3, "Cid");
    s.process_message("/list".to_string(), b);
    s.move_to_spectator(a, true);
    s.remove_player(b, true);
    run_tick(&mut s, 2, &[], None);
    for _ in 0..2 {
        let lasting: Vec<String> =
            s.messages.persistent_messages.iter().map(|m| told(m)).collect();
        for i in [a, c] {
            let known: Vec<String> = data(&s, i).messages.iter().map(|m| told(m)).collect();
            assert!(lasting.iter().all(|m| known.contains(m)));
        }
        s.new_game(initial());
        s.deliver_messages();
    }
}

#[test]
fn skaters_get_their_input() {
    let mut s = server();
    let a = join(&mut s, 1, "Ann");
    join(&mut s, 2, "Bob");
    s.spawn_skater(a, HQMTeam::Red, false, Some(HQMObjectIndex(6)));
    s.players.get_mut(a).unwrap().input.keys = 5;
    let inputs = s.player_inputs();
    assert_eq!(inputs.len(), 1);
    assert_eq!((inputs[0].0, inputs[0].1.keys), (HQMObjectIndex(6), 5));
}

#[test]
fn touched_pucks_are_limited_two_steps_later() {
    let touch = |n: usize| HQMSimulationEvent::PuckTouch {
        player: HQMObjectIndex(n),
        puck: HQMObjectIndex(0),
    };
    let mut s = server();
    join(&mut s, 1, "Ann");
    let both = [touch(7), HQMSimulationEvent::Other, touch(8)];
    assert!(run_tick(&mut s, 1, &both, None).2.is_empty());
    assert!(run_tick(&mut s, 2, &[], None).2.is_empty());
    assert_eq!(
        run_tick(&mut s, 3, &[HQMSimulationEvent::Other], None).2,
        vec![(HQMObjectIndex(8), HQMObjectIndex(0)), (HQMObjectIndex(7), HQMObjectIndex(0))]
    );
    assert!(run_tick(&mut s, 4, &[], None).2.is_empty());
    run_tick(&mut s, 5, &[touch(7)], None);
    run_tick(&mut s, 6, &[touch(8)], None);
    assert!(run_tick(&mut s, 7, &[], None).2.is_empty());
    assert_eq!(
        run_tick(&mut s, 8, &[], None).2,
        vec![(HQMObjectIndex(8), HQMObjectIndex(0))]
    );
}

#[test]
fn play_is_shown_again() {
    let mut s = server();
    let a = join(&mut s, 1, "Ann");
    enter(&mut s, a, 1);
    s.config.replays_enabled = ReplayEnabled::Off;
    s.history_length = 6;
    for n in 0..9 {
        run_tick(&mut s, n, &[], None);
    }
    assert_eq!(s.game_step, 8);
    let steps: Vec<u32> = s.saved_history.iter().map(|t| t.game_step).collect();
    assert_eq!(steps, vec![8, 7, 6, 5, 4, 3]);
    s.add_replay_to_queue(6, 5, None);
    assert!(s.requested_replays.is_empty());
    s.add_replay_to_queue(5, 5, None);
    s.add_replay_to_queue(5, 7, Some(HQMServerPlayerIndex(3)));
    assert!(s.can_show_requests());
    run_tick(&mut s, 9, &[], None);
    assert!(s.requested_replays.is_empty());
    assert_eq!(s.replay_queue.len(), 1);
    for (n, shown) in [(10, 5), (11, 6), (12, 7)] {
        let (log, sent, _) = run_tick(&mut s, n, &[], None);
        assert_eq!(log, vec!["send"]);
        let told = fields(&sent[0].fields);
        assert_eq!(told[3], format!("word {}", shown));
        assert_eq!(told[10], "bits 8 3");
        assert_eq!(s.saved_packets[0], packets(shown));
        assert_eq!(s.game_step, 9);
        assert_eq!(s.packet, n);
    }
    let (log, sent, _) = run_tick(&mut s, 13, &[], None);
    assert_eq!(log, vec!["before", "simulate", "limit", "send"]);
    assert_eq!(fields(&sent[0].fields)[3], "word 10");
    assert!(s.replay_queue.is_empty());
    assert!(s.show_replay_tick(0).is_none());
}

#[test]
fn only_known_play_can_be_shown() {
    let mut s = server();
    join(&mut s, 1, "Ann");
    s.history_length = 3;
    for n in 0..5 {
        run_tick(&mut s, n, &[], None);
    }
    s.add_replay_to_queue(2, 4, None);
    assert!(s.can_show_requests());
    s.add_replay_to_queue(1, 4, None);
    assert!(!s.can_show_requests());
    assert!(!s.can_tick::<u8>(&HQMTickPhase::Sending, &HQMTickEvent::Done));
    s.history_length = 0;
    s.save_history(packets(0));
    assert!(s.saved_history.is_empty());
}

#[test]
fn what_is_kept_is_bounded() {
    let mut s = server();
    join(&mut s, 1, "Ann");
    for n in 0..200 {
        s.save_packets(packets(n), n as u64);
    }
    assert_eq!(s.saved_packets.len(), 192);
    assert_eq!(s.saved_packets[191], packets(8));
    assert_eq!(s.saved_pings.len(), 100);
    assert_eq!(s.saved_pings[99], 100);
    assert_eq!(s.packet, 199);
}

#[test]
fn a_tick_takes_what_it_waits_for() {
    let s = server();
    assert!(s.can_tick::<u8>(&HQMTickPhase::Idle, &HQMTickEvent::Timer));
    assert!(!s.can_tick::<u8>(&HQMTickPhase::Idle, &HQMTickEvent::Done));
    assert!(s.can_tick::<u8>(&HQMTickPhase::Deciding, &HQMTickEvent::ReplayDecision(true)));
    assert!(!s.can_tick::<u8>(&HQMTickPhase::Deciding, &HQMTickEvent::Timer));
    let mut s = server();
    s.game_id = u32::MAX;
    assert!(!s.can_tick(&HQMTickPhase::Abandoned, &HQMTickEvent::InitialValues(initial())));
}

#[test]
fn servers_are_well_formed() {
    let mut s = server();
    assert!(s.is_well_formed());
    join(&mut s, 1, "Ann");
    run_tick(&mut s, 1, &[], Some(vec![1]));
    assert!(s.is_well_formed());
    s.replay_msg_pos = 100;
    assert!(!s.is_well_formed());
    s.replay_msg_pos = 0;
    s.players.players.pop();
    assert!(!s.is_well_formed());
}
