//! Plain values that describe a game: teams, objects on the rink, scores, settings.

use vstd::prelude::*;

verus! {

/// A team.
#[derive(Debug, Copy, Clone, Eq, PartialEq, Hash, Structural)]
pub enum HQMTeam {
    Red,
    Blue,
}

impl HQMTeam {
    /// The number that stands for a team.
    pub open spec fn num(self) -> u32 {
        match self {
            HQMTeam::Red => 0,
            HQMTeam::Blue => 1,
        }
    }

    /// The opposing team.
    pub open spec fn other(self) -> HQMTeam {
        match self {
            HQMTeam::Red => HQMTeam::Blue,
            HQMTeam::Blue => HQMTeam::Red,
        }
    }

    /// The team's name.
    pub open spec fn name(self) -> Seq<char> {
        match self {
            HQMTeam::Red => "Red"@,
            HQMTeam::Blue => "Blue"@,
        }
    }

    pub fn get_num(self) -> (r: u32)
        ensures
            r == self.num(),
    {
        match self {
            HQMTeam::Red => 0,
            HQMTeam::Blue => 1,
        }
    }

    pub fn get_other_team(self) -> (r: Self)
        ensures
            r == self.other(),
    {
        match self {
            HQMTeam::Red => HQMTeam::Blue,
            HQMTeam::Blue => HQMTeam::Red,
        }
    }

    /// The team's name as shown to players.
    pub fn to_text(self) -> (r: String)
        ensures
            r@ == self.name(),
    {
        match self {
            HQMTeam::Red => "Red".to_owned(),
            HQMTeam::Blue => "Blue".to_owned(),
        }
    }
}

/// The slot of an object on the rink.
#[derive(Debug, Copy, Clone, Eq, PartialEq, Hash, Structural)]
pub struct HQMObjectIndex(pub usize);

/// The side on which a skater holds the stick.
#[derive(Debug, Copy, Clone, Eq, PartialEq, Hash, Structural)]
pub enum HQMSkaterHand {
    Left,
    Right,
}

/// A real number, kept by the bits of its single-precision form.
#[derive(Debug, Copy, Clone, Eq, PartialEq, Hash, Structural)]
pub struct HQMReal {
    pub bits: u32,
}

/// The bits of zero.
pub const ZERO_BITS: u32 = 0;

/// The bits of one.
pub const ONE_BITS: u32 = 0x3f80_0000;

/// What a player does with the controls.
#[derive(Debug, Copy, Clone, Eq, PartialEq)]
pub struct HQMPlayerInput {
    pub stick_angle: HQMReal,
    pub turn: HQMReal,
    pub fwbw: HQMReal,
    pub stick: (HQMReal, HQMReal),
    pub head_rot: HQMReal,
    pub body_rot: HQMReal,
    pub keys: u32,
}

impl HQMPlayerInput {
    /// Every control at rest.
    pub open spec fn rest() -> HQMPlayerInput {
        HQMPlayerInput {
            stick_angle: HQMReal { bits: ZERO_BITS },
            turn: HQMReal { bits: ZERO_BITS },
            fwbw: HQMReal { bits: ZERO_BITS },
            stick: (HQMReal { bits: ZERO_BITS }, HQMReal { bits: ZERO_BITS }),
            head_rot: HQMReal { bits: ZERO_BITS },
            body_rot: HQMReal { bits: ZERO_BITS },
            keys: 0,
        }
    }
}

impl Default for HQMPlayerInput {
    fn default() -> (r: Self)
        ensures
            r == HQMPlayerInput::rest(),
    {
        HQMPlayerInput {
            stick_angle: HQMReal { bits: ZERO_BITS },
            turn: HQMReal { bits: ZERO_BITS },
            fwbw: HQMReal { bits: ZERO_BITS },
            stick: (HQMReal { bits: ZERO_BITS }, HQMReal { bits: ZERO_BITS }),
            head_rot: HQMReal { bits: ZERO_BITS },
            body_rot: HQMReal { bits: ZERO_BITS },
            keys: 0,
        }
    }
}

/// What the referee is showing.
#[derive(Debug, Copy, Clone, Eq, PartialEq, Structural)]
pub enum HQMRulesState {
    Regular { offside_warning: bool, icing_warning: bool },
    Offside,
    Icing,
}

impl HQMRulesState {
    /// The number sent to clients that show the rules: two warning bits in
    /// regular play, a bit of its own for each stoppage.
    pub open spec fn code(self) -> u32 {
        match self {
            HQMRulesState::Regular { offside_warning, icing_warning } => if offside_warning {
                if icing_warning { 3 } else { 1 }
            } else {
                if icing_warning { 2 } else { 0 }
            },
            HQMRulesState::Offside => 4,
            HQMRulesState::Icing => 8,
        }
    }

    /// The number sent to clients that show the rules.
    pub fn get_code(self) -> (r: u32)
        ensures
            r == self.code(),
    {
        match self {
            HQMRulesState::Regular { offside_warning, icing_warning } => {
                let mut res: u32 = 0;
                if offside_warning {
                    res = res | 1;
                }
                if icing_warning {
                    res = res | 2;
                }
                assert(0u32 | 1 == 1 && 0u32 | 2 == 2 && 1u32 | 2 == 3) by (bit_vector);
                res
            },
            HQMRulesState::Offside => 4,
            HQMRulesState::Icing => 8,
        }
    }
}

/// The score board.
#[derive(Debug, Copy, Clone, Eq, PartialEq, Structural)]
pub struct HQMGameValues {
    pub rules_state: HQMRulesState,
    pub red_score: u32,
    pub blue_score: u32,
    pub period: u32,
    pub time: u32,
    pub goal_message_timer: u32,
    pub game_over: bool,
}

/// What a new game starts from. How the rink behaves is only passed on, so its
/// configuration is of any type.
#[derive(Debug, Clone)]
pub struct HQMInitialGameValues<P> {
    pub values: HQMGameValues,
    pub puck_slots: usize,
    pub physics_configuration: P,
}

/// Where one object is in one tick, as clients see it.
#[derive(Debug, Copy, Clone, Eq, PartialEq)]
pub enum HQMObjectPacket {
    Empty,
    Puck { pos: (u32, u32, u32), rot: (u32, u32) },
    Skater {
        pos: (u32, u32, u32),
        rot: (u32, u32),
        stick_pos: (u32, u32, u32),
        stick_rot: (u32, u32),
        head_rot: u32,
        body_rot: u32,
    },
}

/// Something that happened on the rink during one step.
#[derive(Debug, Copy, Clone, Eq, PartialEq, Structural)]
pub enum HQMSimulationEvent {
    PuckTouch { player: HQMObjectIndex, puck: HQMObjectIndex },
    Other,
}

/// What a client can be told beyond the basic protocol.
#[derive(Debug, Copy, Clone, PartialEq, Eq, Structural)]
pub enum HQMClientVersion {
    Vanilla,
    Ping,
    PingRules,
}

impl HQMClientVersion {
    /// Whether the client expects its clock back.
    pub open spec fn ping(self) -> bool {
        self != HQMClientVersion::Vanilla
    }

    /// Whether the client shows the rules.
    pub open spec fn rules(self) -> bool {
        self == HQMClientVersion::PingRules
    }

    pub fn has_ping(self) -> (r: bool)
        ensures
            r == self.ping(),
    {
        match self {
            HQMClientVersion::Vanilla => false,
            HQMClientVersion::Ping => true,
            HQMClientVersion::PingRules => true,
        }
    }

    pub fn has_rules(self) -> (r: bool)
        ensures
            r == self.rules(),
    {
        match self {
            HQMClientVersion::Vanilla => false,
            HQMClientVersion::Ping => false,
            HQMClientVersion::PingRules => true,
        }
    }
}

/// Whether a player's chat reaches the others.
#[derive(Debug, Copy, Clone, Eq, PartialEq, Structural)]
pub enum HQMMuteStatus {
    NotMuted,
    ShadowMuted,
    Muted,
}

/// Where finished replays go.
#[derive(Debug, Clone)]
pub enum ReplaySaving {
    File,
    Endpoint { url: String },
}

/// Whether replays are recorded and saved.
#[derive(Debug, Copy, Clone, PartialEq, Eq, Structural)]
pub enum ReplayEnabled {
    Off,
    On,
    Standby,
}

/// The settings of a server.
#[derive(Debug, Clone)]
pub struct HQMServerConfiguration {
    pub welcome: Vec<String>,
    pub password: String,
    pub player_max: usize,
    pub replays_enabled: ReplayEnabled,
    pub replay_saving: ReplaySaving,
    pub server_name: String,
    pub server_service: Option<String>,
}

} // verus!
