//! Players, the slots they occupy, and lists of players that were looked up.

use crate::game::{
    HQMClientVersion, HQMMuteStatus, HQMObjectIndex, HQMPlayerInput, HQMReal, HQMSkaterHand,
    HQMTeam, ONE_BITS, ZERO_BITS,
};
use crate::message::{message_views, HQMMessage, HQMMessageView};
use crate::net::HQMSocketAddr;
use crate::text::{decimal_text, index_error, number_text, parse_usize, parsed_index};
use std::collections::VecDeque;
use std::num::ParseIntError;
use std::rc::Rc;
use vstd::prelude::*;

verus! {

/// How many players fit on a server.
pub const PLAYER_SLOTS: usize = 64;

/// How many round-trip times are kept of each player.
pub const PINGS_KEPT: usize = 100;

/// The slot of a player.
#[derive(Copy, Clone, Debug, Eq, PartialEq, Hash, Structural)]
pub struct HQMServerPlayerIndex(pub usize);

impl HQMServerPlayerIndex {
    /// The slot's number in decimal.
    pub fn to_text(self) -> (r: String)
        ensures
            r@ == decimal_text(self.0 as nat),
    {
        number_text(self.0)
    }

    /// The slot whose number a text gives in decimal, or why the text gives none.
    pub fn from_str(s: &str) -> (r: Result<HQMServerPlayerIndex, ParseIntError>)
        ensures
            match parsed_index(s@) {
                Some(n) => r == Ok::<_, ParseIntError>(HQMServerPlayerIndex(n)),
                None => r == Err::<HQMServerPlayerIndex, _>(index_error(s@, usize::MAX)),
            },
    {
        match parse_usize(s) {
            Ok(n) => Ok(HQMServerPlayerIndex(n)),
            Err(e) => Err(e),
        }
    }
}

/// What the server knows of a connected client.
pub struct HQMNetworkPlayerData {
    pub addr: HQMSocketAddr,
    pub client_version: HQMClientVersion,
    /// Ticks since the client was last heard from.
    pub inactivity: u32,
    pub known_packet: u32,
    pub known_msgpos: usize,
    pub chat_rep: Option<u8>,
    /// The client's clock, sent back to it as it came.
    pub deltatime: u32,
    /// Round-trip times in nanoseconds, the latest first.
    pub last_ping: VecDeque<u64>,
    pub view_player_index: HQMServerPlayerIndex,
    pub game_id: u32,
    pub messages: Vec<Rc<HQMMessage>>,
}

/// What the server knows of a connected client.
#[verifier::ext_equal]
pub struct HQMNetworkPlayerDataView {
    pub addr: HQMSocketAddr,
    pub client_version: HQMClientVersion,
    pub inactivity: u32,
    pub known_packet: u32,
    pub known_msgpos: usize,
    pub chat_rep: Option<u8>,
    pub deltatime: u32,
    pub last_ping: Seq<u64>,
    pub view_player_index: HQMServerPlayerIndex,
    pub game_id: u32,
    pub messages: Seq<HQMMessageView>,
}

impl View for HQMNetworkPlayerData {
    type V = HQMNetworkPlayerDataView;

    open spec fn view(&self) -> HQMNetworkPlayerDataView {
        HQMNetworkPlayerDataView {
            addr: self.addr,
            client_version: self.client_version,
            inactivity: self.inactivity,
            known_packet: self.known_packet,
            known_msgpos: self.known_msgpos,
            chat_rep: self.chat_rep,
            deltatime: self.deltatime,
            last_ping: self.last_ping@,
            view_player_index: self.view_player_index,
            game_id: self.game_id,
            messages: message_views(self.messages@),
        }
    }
}

/// The kinds of players.
pub enum HQMServerPlayerData {
    NetworkPlayer { data: HQMNetworkPlayerData },
}

impl View for HQMServerPlayerData {
    type V = HQMNetworkPlayerDataView;

    open spec fn view(&self) -> HQMNetworkPlayerDataView {
        match self {
            HQMServerPlayerData::NetworkPlayer { data } => data@,
        }
    }
}

/// A player.
pub struct HQMServerPlayer {
    pub player_name: Rc<String>,
    pub object: Option<(HQMObjectIndex, HQMTeam)>,
    pub id: u128,
    pub data: HQMServerPlayerData,
    pub is_admin: bool,
    pub is_muted: HQMMuteStatus,
    pub hand: HQMSkaterHand,
    pub mass: HQMReal,
    pub input: HQMPlayerInput,
    pub stick_limit: HQMReal,
}

/// A player.
#[verifier::ext_equal]
pub struct HQMServerPlayerView {
    pub player_name: Seq<char>,
    pub object: Option<(HQMObjectIndex, HQMTeam)>,
    pub id: u128,
    pub data: HQMNetworkPlayerDataView,
    pub is_admin: bool,
    pub is_muted: HQMMuteStatus,
    pub hand: HQMSkaterHand,
    pub mass: HQMReal,
    pub input: HQMPlayerInput,
    pub stick_limit: HQMReal,
}

impl View for HQMServerPlayer {
    type V = HQMServerPlayerView;

    open spec fn view(&self) -> HQMServerPlayerView {
        HQMServerPlayerView {
            player_name: (*self.player_name)@,
            object: self.object,
            id: self.id,
            data: self.data@,
            is_admin: self.is_admin,
            is_muted: self.is_muted,
            hand: self.hand,
            mass: self.mass,
            input: self.input,
            stick_limit: self.stick_limit,
        }
    }
}

/// Whether a number is a random identifier: version four, of the standard variant.
pub open spec fn is_random_id(id: u128) -> bool {
    id & 0xF000_C000_0000_0000_0000 == 0x4000_8000_0000_0000_0000
}

/// `uuid::Uuid::new_v4`: a fresh identifier is random but for the bits that give
/// its version and variant.
#[verifier::external_body]
fn random_id() -> (id: u128)
    ensures
        is_random_id(id),
{
    uuid::Uuid::new_v4().as_u128()
}

impl HQMServerPlayerView {
    /// A player who has just connected, and to whom the game so far is told.
    pub open spec fn connected(
        player_index: HQMServerPlayerIndex,
        player_name: Seq<char>,
        addr: HQMSocketAddr,
        global_messages: Seq<HQMMessageView>,
        id: u128,
    ) -> HQMServerPlayerView {
        HQMServerPlayerView {
            player_name,
            object: None,
            id,
            data: HQMNetworkPlayerDataView {
                addr,
                client_version: HQMClientVersion::Vanilla,
                inactivity: 0,
                known_packet: u32::MAX,
                known_msgpos: 0,
                chat_rep: None,
                deltatime: 0,
                last_ping: seq![],
                view_player_index: player_index,
                game_id: u32::MAX,
                messages: global_messages,
            },
            is_admin: false,
            is_muted: HQMMuteStatus::NotMuted,
            hand: HQMSkaterHand::Right,
            mass: HQMReal { bits: ONE_BITS },
            input: HQMPlayerInput::rest(),
            stick_limit: HQMReal { bits: ZERO_BITS },
        }
    }

    /// The player when a new game begins.
    pub open spec fn restarted(self, player_index: HQMServerPlayerIndex) -> HQMServerPlayerView {
        HQMServerPlayerView {
            object: None,
            data: HQMNetworkPlayerDataView {
                known_msgpos: 0,
                known_packet: u32::MAX,
                messages: seq![],
                view_player_index: player_index,
                ..self.data
            },
            ..self
        }
    }

    /// What the others are told of the player.
    pub open spec fn update_message(self, player_index: HQMServerPlayerIndex) -> HQMMessageView {
        HQMMessageView::PlayerUpdate {
            player_name: self.player_name,
            object: self.object,
            player_index,
            in_server: true,
        }
    }

    /// What the others are told when the player has gone.
    pub open spec fn gone_message(self, player_index: HQMServerPlayerIndex) -> HQMMessageView {
        HQMMessageView::PlayerUpdate {
            player_name: self.player_name,
            object: None,
            player_index,
            in_server: false,
        }
    }

    /// The player after one more message.
    pub open spec fn with_message(self, message: HQMMessageView) -> HQMServerPlayerView {
        self.with_messages(seq![message])
    }

    /// The player after several more messages.
    pub open spec fn with_messages(self, messages: Seq<HQMMessageView>) -> HQMServerPlayerView {
        HQMServerPlayerView {
            data: HQMNetworkPlayerDataView { messages: self.data.messages + messages, ..self.data },
            ..self
        }
    }

    /// The player in a team or among the spectators.
    pub open spec fn with_object(
        self,
        object: Option<(HQMObjectIndex, HQMTeam)>,
    ) -> HQMServerPlayerView {
        HQMServerPlayerView { object, ..self }
    }

    /// The player looking at the rink through another player's eyes.
    pub open spec fn viewing(self, view: HQMServerPlayerIndex) -> HQMServerPlayerView {
        HQMServerPlayerView {
            data: HQMNetworkPlayerDataView { view_player_index: view, ..self.data },
            ..self
        }
    }

    /// Whether the player plays for a team.
    pub open spec fn plays_for(self, team: HQMTeam) -> bool {
        self.object is Some && (self.object->0).1 == team
    }
}

impl HQMServerPlayer {
    /// A player who has just connected, under a fresh identifier.
    pub fn new_network_player(
        player_index: HQMServerPlayerIndex,
        player_name: String,
        addr: HQMSocketAddr,
        global_messages: &[Rc<HQMMessage>],
    ) -> (r: Self)
        ensures
            is_random_id(r.id),
            r@ == HQMServerPlayerView::connected(
                player_index,
                player_name@,
                addr,
                message_views(global_messages@),
                r.id,
            ),
    {
        HQMServerPlayer::with_id(player_index, player_name, addr, global_messages, random_id())
    }

    /// A player who has just connected, under a given identifier.
    pub fn with_id(
        player_index: HQMServerPlayerIndex,
        player_name: String,
        addr: HQMSocketAddr,
        global_messages: &[Rc<HQMMessage>],
        id: u128,
    ) -> (r: Self)
        ensures
            r.id == id,
            r@ == HQMServerPlayerView::connected(
                player_index,
                player_name@,
                addr,
                message_views(global_messages@),
                id,
            ),
    {
        let mut messages: Vec<Rc<HQMMessage>> = Vec::new();
        for i in 0..global_messages.len()
            invariant
                messages@ == global_messages@.take(i as int),
        {
            messages.push(global_messages[i].clone());
            assert(global_messages@.take(i + 1) =~= global_messages@.take(i as int).push(
                global_messages@[i as int],
            ));
        }
        assert(messages@ =~= global_messages@);
        let r = HQMServerPlayer {
            player_name: Rc::new(player_name),
            object: None,
            id,
            data: HQMServerPlayerData::NetworkPlayer {
                data: HQMNetworkPlayerData {
                    addr,
                    client_version: HQMClientVersion::Vanilla,
                    inactivity: 0,
                    known_packet: u32::MAX,
                    known_msgpos: 0,
                    chat_rep: None,
                    deltatime: 0,
                    last_ping: VecDeque::new(),
                    view_player_index: player_index,
                    game_id: u32::MAX,
                    messages,
                },
            },
            is_admin: false,
            is_muted: HQMMuteStatus::NotMuted,
            hand: HQMSkaterHand::Right,
            mass: HQMReal { bits: ONE_BITS },
            input: HQMPlayerInput::default(),
            stick_limit: HQMReal { bits: ZERO_BITS },
        };
        assert(r@.data =~= HQMServerPlayerView::connected(
            player_index,
            player_name@,
            addr,
            message_views(global_messages@),
            id,
        ).data);
        r
    }

    /// Makes the player ready for a new game; tells whether the player takes part in it.
    pub fn reset(&mut self, player_index: HQMServerPlayerIndex) -> (r: bool)
        ensures
            r,
            final(self)@ == old(self)@.restarted(player_index),
    {
        self.object = None;
        match &mut self.data {
            HQMServerPlayerData::NetworkPlayer { data } => {
                data.known_msgpos = 0;
                data.known_packet = u32::MAX;
                data.messages.clear();
                data.view_player_index = player_index;
            },
        }
        assert(self@.data =~= old(self)@.restarted(player_index).data);
        true
    }

    /// What the others are told of the player.
    pub fn get_update_message(&self, player_index: HQMServerPlayerIndex) -> (r: HQMMessage)
        ensures
            r@ == self@.update_message(player_index),
    {
        HQMMessage::PlayerUpdate {
            player_name: self.player_name.clone(),
            object: self.object,
            player_index,
            in_server: true,
        }
    }

    /// Queues a message for the player.
    pub fn add_message(&mut self, message: Rc<HQMMessage>)
        ensures
            final(self)@ == old(self)@.with_message((*message)@),
    {
        match &mut self.data {
            HQMServerPlayerData::NetworkPlayer { data } => {
                data.messages.push(message);
            },
        }
        assert(self@.data =~= old(self)@.with_message((*message)@).data);
    }

    /// The address of the player's client.
    pub fn addr(&self) -> (r: Option<HQMSocketAddr>)
        ensures
            r == Some(self@.data.addr),
    {
        match &self.data {
            HQMServerPlayerData::NetworkPlayer { data } => Some(data.addr),
        }
    }
}

/// The players by slot.
pub struct HQMServerPlayerList {
    pub players: Vec<Option<HQMServerPlayer>>,
}

/// What is in a slot.
pub open spec fn slot_view(p: Option<HQMServerPlayer>) -> Option<HQMServerPlayerView> {
    match p {
        Some(p) => Some(p@),
        None => None,
    }
}

impl View for HQMServerPlayerList {
    type V = Seq<Option<HQMServerPlayerView>>;

    open spec fn view(&self) -> Seq<Option<HQMServerPlayerView>> {
        Seq::new(self.players@.len(), |i: int| slot_view(self.players@[i]))
    }
}

/// The player in a slot, if the slot exists and is taken.
pub open spec fn player_at(
    players: Seq<Option<HQMServerPlayerView>>,
    index: HQMServerPlayerIndex,
) -> Option<HQMServerPlayerView> {
    if index.0 < players.len() {
        players[index.0 as int]
    } else {
        None
    }
}

/// The first slot, from `from` on, of which `p` holds.
pub open spec fn first_slot(
    players: Seq<Option<HQMServerPlayerView>>,
    p: spec_fn(Option<HQMServerPlayerView>) -> bool,
    from: int,
) -> Option<HQMServerPlayerIndex>
    decreases players.len() - from,
{
    if from >= players.len() {
        None
    } else if p(players[from]) {
        Some(HQMServerPlayerIndex(from as usize))
    } else {
        first_slot(players, p, from + 1)
    }
}

/// The players of whom `p` holds, in the order of their slots, from `from` on.
pub open spec fn picked(
    players: Seq<Option<HQMServerPlayerView>>,
    p: spec_fn(HQMServerPlayerIndex, HQMServerPlayerView) -> bool,
    from: int,
) -> Seq<(HQMServerPlayerIndex, HQMServerPlayerView)>
    decreases players.len() - from,
{
    if from >= players.len() {
        seq![]
    } else {
        let index = HQMServerPlayerIndex(from as usize);
        let rest = picked(players, p, from + 1);
        match players[from] {
            Some(player) => if p(index, player) {
                seq![(index, player)] + rest
            } else {
                rest
            },
            None => rest,
        }
    }
}

/// Everyone who was picked is a player of whom the condition holds.
pub proof fn lemma_picked_sound(
    players: Seq<Option<HQMServerPlayerView>>,
    p: spec_fn(HQMServerPlayerIndex, HQMServerPlayerView) -> bool,
    from: int,
    k: int,
)
    requires
        0 <= from,
        players.len() <= usize::MAX,
        0 <= k < picked(players, p, from).len(),
    ensures
        ({
            let (index, player) = picked(players, p, from)[k];
            from <= index.0 < players.len() && players[index.0 as int] == Some(player) && p(
                index,
                player,
            )
        }),
    decreases players.len() - from,
{
    if from < players.len() {
        let rest = picked(players, p, from + 1);
        if players[from] is Some && p(HQMServerPlayerIndex(from as usize), players[from]->0) {
            if k > 0 {
                lemma_picked_sound(players, p, from + 1, k - 1);
                assert(picked(players, p, from)[k] == rest[k - 1]);
            }
        } else {
            lemma_picked_sound(players, p, from + 1, k);
        }
    }
}

/// Every player of whom the condition holds was picked.
pub proof fn lemma_picked_complete(
    players: Seq<Option<HQMServerPlayerView>>,
    p: spec_fn(HQMServerPlayerIndex, HQMServerPlayerView) -> bool,
    from: int,
    i: int,
) -> (k: int)
    requires
        0 <= from <= i < players.len() <= usize::MAX,
        players[i] is Some,
        p(HQMServerPlayerIndex(i as usize), players[i]->0),
    ensures
        0 <= k < picked(players, p, from).len(),
        picked(players, p, from)[k] == (HQMServerPlayerIndex(i as usize), players[i]->0),
    decreases i - from,
{
    if from == i {
        0
    } else {
        let k = lemma_picked_complete(players, p, from + 1, i);
        if players[from] is Some && p(HQMServerPlayerIndex(from as usize), players[from]->0) {
            assert(picked(players, p, from)[k + 1] == picked(players, p, from + 1)[k]);
            k + 1
        } else {
            k
        }
    }
}

/// Players are picked in the order of their slots, each once.
pub proof fn lemma_picked_ordered(
    players: Seq<Option<HQMServerPlayerView>>,
    p: spec_fn(HQMServerPlayerIndex, HQMServerPlayerView) -> bool,
    from: int,
    j: int,
    k: int,
)
    requires
        0 <= from,
        players.len() <= usize::MAX,
        0 <= j < k < picked(players, p, from).len(),
    ensures
        picked(players, p, from)[j].0.0 < picked(players, p, from)[k].0.0,
    decreases players.len() - from,
{
    if from < players.len() {
        let rest = picked(players, p, from + 1);
        if players[from] is Some && p(HQMServerPlayerIndex(from as usize), players[from]->0) {
            assert(picked(players, p, from)[k] == rest[k - 1]);
            if j == 0 {
                lemma_picked_sound(players, p, from + 1, k - 1);
            } else {
                assert(picked(players, p, from)[j] == rest[j - 1]);
                lemma_picked_ordered(players, p, from + 1, j - 1, k - 1);
            }
        } else {
            lemma_picked_ordered(players, p, from + 1, j, k);
        }
    }
}

/// All players.
pub open spec fn everyone() -> spec_fn(HQMServerPlayerIndex, HQMServerPlayerView) -> bool {
    |i: HQMServerPlayerIndex, p: HQMServerPlayerView| true
}

/// The slot of the player who controls an object.
pub open spec fn controls(object: HQMObjectIndex) -> spec_fn(Option<HQMServerPlayerView>) -> bool {
    |p: Option<HQMServerPlayerView>| p is Some && p->0.object is Some && (p->0.object->0).0 == object
}

/// The slot of the player at an address.
pub open spec fn lives_at(addr: HQMSocketAddr) -> spec_fn(Option<HQMServerPlayerView>) -> bool {
    |p: Option<HQMServerPlayerView>| p is Some && p->0.data.addr == addr
}

/// A free slot.
pub open spec fn is_free() -> spec_fn(Option<HQMServerPlayerView>) -> bool {
    |p: Option<HQMServerPlayerView>| p is None
}

impl HQMServerPlayerList {
    /// Slots for players, all free.
    pub fn new() -> (r: Self)
        ensures
            r@ == Seq::new(PLAYER_SLOTS as nat, |i: int| None::<HQMServerPlayerView>),
    {
        let mut players: Vec<Option<HQMServerPlayer>> = Vec::with_capacity(PLAYER_SLOTS);
        for i in 0..PLAYER_SLOTS
            invariant
                players@.len() == i,
                forall|j: int| 0 <= j < i ==> players@[j] is None,
        {
            players.push(None);
        }
        let r = HQMServerPlayerList { players };
        assert(r@ =~= Seq::new(PLAYER_SLOTS as nat, |i: int| None::<HQMServerPlayerView>));
        r
    }

    /// The players in the order of their slots.
    pub fn iter(&self) -> (r: Vec<(HQMServerPlayerIndex, &HQMServerPlayer)>)
        ensures
            r@.len() == picked(self@, everyone(), 0).len(),
            forall|k: int|
                #![trigger r@[k]]
                0 <= k < r@.len() ==> r@[k].0 == picked(self@, everyone(), 0)[k].0 && (*r@[k].1)@
                    == picked(self@, everyone(), 0)[k].1,
    {
        let mut r: Vec<(HQMServerPlayerIndex, &HQMServerPlayer)> = Vec::new();
        let ghost mut done: Seq<(HQMServerPlayerIndex, HQMServerPlayerView)> = seq![];
        let n: usize = self.players.len();
        assert(done + picked(self@, everyone(), 0) =~= picked(self@, everyone(), 0));
        for i in 0..n
            invariant
                n == self.players@.len(),
                r@.len() == done.len(),
                forall|k: int|
                    #![trigger r@[k]]
                    0 <= k < r@.len() ==> r@[k].0 == done[k].0 && (*r@[k].1)@ == done[k].1,
                done + picked(self@, everyone(), i as int) == picked(self@, everyone(), 0),
        {
            match &self.players[i] {
                Some(p) => {
                    let index = HQMServerPlayerIndex(i);
                    r.push((index, p));
                    proof {
                        let rest = picked(self@, everyone(), i + 1);
                        assert(done + (seq![(index, p@)] + rest) =~= done.push((index, p@)) + rest);
                        done = done.push((index, p@));
                    }
                },
                None => {},
            }
        }
        assert(done + picked(self@, everyone(), n as int) =~= done);
        r
    }

    /// The player in a slot.
    pub fn get(&self, player_index: HQMServerPlayerIndex) -> (r: Option<&HQMServerPlayer>)
        ensures
            match player_at(self@, player_index) {
                Some(p) => r is Some && (*r->0)@ == p,
                None => r is None,
            },
    {
        if player_index.0 < self.players.len() {
            self.players[player_index.0].as_ref()
        } else {
            None
        }
    }

    /// The player in a slot, to be changed.
    pub fn get_mut(&mut self, player_index: HQMServerPlayerIndex) -> (r: Option<
        &mut HQMServerPlayer,
    >)
        ensures
            match player_at(old(self)@, player_index) {
                Some(p) => r is Some && (*r->0)@ == p && final(self)@ == old(self)@.update(
                    player_index.0 as int,
                    Some((*final(r->0))@),
                ),
                None => r is None && final(self)@ == old(self)@,
            },
    {
        if player_index.0 < self.players.len() {
            self.players[player_index.0].as_mut()
        } else {
            None
        }
    }

    /// The player who controls an object.
    pub fn get_from_object_index(&self, object_index: HQMObjectIndex) -> (r: Option<
        (HQMServerPlayerIndex, HQMTeam, &HQMServerPlayer),
    >)
        ensures
            match first_slot(self@, controls(object_index), 0) {
                Some(i) => r is Some && (r->0).0 == i && player_at(self@, i) is Some && (r->0).1
                    == (player_at(self@, i)->0.object->0).1 && (*(r->0).2)@ == player_at(self@, i)->0,
                None => r is None,
            },
    {
        let n: usize = self.players.len();
        for i in 0..n
            invariant
                n == self.players@.len(),
                first_slot(self@, controls(object_index), i as int) == first_slot(
                    self@,
                    controls(object_index),
                    0,
                ),
        {
            if let Some(player) = &self.players[i] {
                if let Some((o, team)) = player.object {
                    if o == object_index {
                        return Some((HQMServerPlayerIndex(i), team, player));
                    }
                }
            }
        }
        None
    }

    /// Frees a slot.
    pub fn remove_player(&mut self, player_index: HQMServerPlayerIndex)
        requires
            player_index.0 < old(self)@.len(),
        ensures
            final(self)@ == old(self)@.update(player_index.0 as int, None),
    {
        self.players[player_index.0] = None;
        assert(self@ =~= old(self)@.update(player_index.0 as int, None));
    }

    /// Puts a player into a slot.
    pub fn add_player(&mut self, player_index: HQMServerPlayerIndex, player: HQMServerPlayer)
        requires
            player_index.0 < old(self)@.len(),
        ensures
            final(self)@ == old(self)@.update(player_index.0 as int, Some(player@)),
    {
        self.players[player_index.0] = Some(player);
        assert(self@ =~= old(self)@.update(player_index.0 as int, Some(player@)));
    }
}

} // verus!
