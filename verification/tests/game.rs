use hqm_server::game::{
    HQMClientVersion, HQMPlayerInput, HQMReal, HQMRulesState, HQMTeam, ONE_BITS, ZERO_BITS,
};

#[test]
fn the_other_team() {
    assert_eq!(HQMTeam::Red.get_other_team(), HQMTeam::Blue);
    assert_eq!(HQMTeam::Blue.get_other_team(), HQMTeam::Red);
    assert_eq!(HQMTeam::Red.get_other_team().get_other_team(), HQMTeam::Red);
}

#[test]
fn teams_have_numbers_and_names() {
    assert_eq!(HQMTeam::Red.get_num(), 0);
    assert_eq!(HQMTeam::Blue.get_num(), 1);
    assert_eq!(HQMTeam::Red.to_text(), "Red");
    assert_eq!(HQMTeam::Blue.to_text(), "Blue");
}

#[test]
fn versions_of_clients() {
    assert!(!HQMClientVersion::Vanilla.has_ping());
    assert!(!HQMClientVersion::Vanilla.has_rules());
    assert!(HQMClientVersion::Ping.has_ping());
    assert!(!HQMClientVersion::Ping.has_rules());
    assert!(HQMClientVersion::PingRules.has_ping());
    assert!(HQMClientVersion::PingRules.has_rules());
}

#[test]
fn what_the_referee_shows() {
    let regular = |offside_warning: bool, icing_warning: bool| {
        HQMRulesState::Regular { offside_warning, icing_warning }.get_code()
    };
    assert_eq!(regular(false, false), 0);
    assert_eq!(regular(true, false), 1);
    assert_eq!(regular(false, true), 2);
    assert_eq!(regular(true, true), 3);
    assert_eq!(HQMRulesState::Offside.get_code(), 4);
    assert_eq!(HQMRulesState::Icing.get_code(), 8);
}

#[test]
fn reals_are_kept_by_their_bits() {
    assert_eq!(f32::from_bits(ZERO_BITS), 0.0);
    assert_eq!(f32::from_bits(ONE_BITS), 1.0);
    let rest = HQMPlayerInput::default();
    assert_eq!(rest.turn, HQMReal { bits: ZERO_BITS });
    assert_eq!(rest.keys, 0);
}
