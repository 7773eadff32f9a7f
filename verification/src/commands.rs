//! Chat lines: plain chat, commands, and what a command asks for.

use crate::game::{HQMClientVersion, HQMMuteStatus, HQMPlayerInput, HQMSkaterHand};
use crate::lookup::listing;
use crate::matches::{count_matches, match_at, HQMPlayerMatches};
use crate::message::chat_message;
use crate::net::HQMSocketAddr;
use crate::player::{
    lives_at, player_at, HQMNetworkPlayerDataView, HQMServerPlayer, HQMServerPlayerData,
    HQMServerPlayerIndex, HQMServerPlayerView, PINGS_KEPT,
};
use crate::server::{recorded, HQMServer, HQMServerView};
use crate::session::lemma_first_slot;
use crate::text::{
    command_arg, command_word, is_command, parsed_index, read_index, same_text, split_command,
};
use std::borrow::Cow;
use std::rc::Rc;
use vstd::prelude::*;

verus! {

/// What is left to do for a chat line. All but the last three are for the
/// administration of the server.
#[allow(inconsistent_fields)]
pub enum HQMCommandAction {
    Nothing,
    SetAllowJoin(bool),
    MutePlayer(HQMServerPlayerIndex),
    UnmutePlayer(HQMServerPlayerIndex),
    MuteChat,
    UnmuteChat,
    KickPlayer { player_index: HQMServerPlayerIndex, ban: bool },
    KickAllMatching { name: String, ban: bool },
    ClearBans,
    AdminLogin { password: String },
    RestartServer,
    /// Take the stick in the other hand.
    SetHand(HQMSkaterHand),
    /// Tell the round-trip times of a player, given in nanoseconds.
    ReportPing { player_name: Rc<String>, pings: Vec<u64> },
    /// A command of the rules of the game.
    Behaviour { command: String, arg: String },
}

/// What is left to do for a chat line.
#[allow(inconsistent_fields)]
pub enum HQMCommandActionView {
    Nothing,
    SetAllowJoin(bool),
    MutePlayer(HQMServerPlayerIndex),
    UnmutePlayer(HQMServerPlayerIndex),
    MuteChat,
    UnmuteChat,
    KickPlayer { player_index: HQMServerPlayerIndex, ban: bool },
    KickAllMatching { name: Seq<char>, ban: bool },
    ClearBans,
    AdminLogin { password: Seq<char> },
    RestartServer,
    SetHand(HQMSkaterHand),
    ReportPing { player_name: Seq<char>, pings: Seq<u64> },
    Behaviour { command: Seq<char>, arg: Seq<char> },
}

impl View for HQMCommandAction {
    type V = HQMCommandActionView;

    open spec fn view(&self) -> HQMCommandActionView {
        match self {
            HQMCommandAction::Nothing => HQMCommandActionView::Nothing,
            HQMCommandAction::SetAllowJoin(allow) => HQMCommandActionView::SetAllowJoin(*allow),
            HQMCommandAction::MutePlayer(i) => HQMCommandActionView::MutePlayer(*i),
            HQMCommandAction::UnmutePlayer(i) => HQMCommandActionView::UnmutePlayer(*i),
            HQMCommandAction::MuteChat => HQMCommandActionView::MuteChat,
            HQMCommandAction::UnmuteChat => HQMCommandActionView::UnmuteChat,
            HQMCommandAction::KickPlayer { player_index, ban } =>
                HQMCommandActionView::KickPlayer { player_index: *player_index, ban: *ban },
            HQMCommandAction::KickAllMatching { name, ban } =>
                HQMCommandActionView::KickAllMatching { name: name@, ban: *ban },
            HQMCommandAction::ClearBans => HQMCommandActionView::ClearBans,
            HQMCommandAction::AdminLogin { password } => HQMCommandActionView::AdminLogin {
                password: password@,
            },
            HQMCommandAction::RestartServer => HQMCommandActionView::RestartServer,
            HQMCommandAction::SetHand(hand) => HQMCommandActionView::SetHand(*hand),
            HQMCommandAction::ReportPing { player_name, pings } =>
                HQMCommandActionView::ReportPing { player_name: (**player_name)@, pings: pings@ },
            HQMCommandAction::Behaviour { command, arg } => HQMCommandActionView::Behaviour {
                command: command@,
                arg: arg@,
            },
        }
    }
}

/// Whom a text in a command means.
pub enum HQMLookup {
    One(HQMServerPlayerIndex),
    Nobody,
    Several(HQMPlayerMatches),
}

/// Whom a text in a command means.
pub enum HQMLookupView {
    One(HQMServerPlayerIndex),
    Nobody,
    Several(Seq<(HQMServerPlayerIndex, Seq<char>)>),
}

impl View for HQMLookup {
    type V = HQMLookupView;

    open spec fn view(&self) -> HQMLookupView {
        match self {
            HQMLookup::One(i) => HQMLookupView::One(*i),
            HQMLookup::Nobody => HQMLookupView::Nobody,
            HQMLookup::Several(found) => HQMLookupView::Several(found@),
        }
    }
}

impl HQMServerView {
    /// After a player asked to look through the eyes of another.
    pub open spec fn after_view(
        self,
        view: HQMServerPlayerIndex,
        index: HQMServerPlayerIndex,
    ) -> Self {
        match player_at(self.players, view) {
            None => self.told("No player with this ID exists"@, index),
            Some(other) => match player_at(self.players, index) {
                None => self,
                Some(p) => if p.object is Some {
                    self.told("You must be a spectator to change view"@, index)
                } else if view == p.data.view_player_index {
                    self
                } else {
                    self.with_player(index, Some(p.viewing(view))).told(
                        if index != view {
                            "You are now viewing "@ + other.player_name
                        } else {
                            "View has been restored"@
                        },
                        index,
                    )
                },
            },
        }
    }

    /// After a player asked for the own view back.
    pub open spec fn after_restore_view(self, index: HQMServerPlayerIndex) -> Self {
        match player_at(self.players, index) {
            Some(p) => if p.data.view_player_index != index {
                self.with_player(index, Some(p.viewing(index))).told(
                    "View has been restored"@,
                    index,
                )
            } else {
                self
            },
            None => self,
        }
    }

    /// After a player asked for the round-trip times of another.
    pub open spec fn after_ping(
        self,
        pinged: HQMServerPlayerIndex,
        index: HQMServerPlayerIndex,
    ) -> (Self, HQMCommandActionView) {
        match player_at(self.players, pinged) {
            Some(p) => (
                self,
                HQMCommandActionView::ReportPing {
                    player_name: p.player_name,
                    pings: p.data.last_ping,
                },
            ),
            None => (
                self.told("No player with this ID exists"@, index),
                HQMCommandActionView::Nothing,
            ),
        }
    }

    /// Whom a text means: the one player of that name, else the one player whose
    /// name contains it.
    pub open spec fn lookup(self, name: Seq<char>) -> HQMLookupView {
        match self.unique_match(name) {
            Some(found) => HQMLookupView::One(found.0),
            None => {
                let found = self.search(name);
                if found.len() == 0 {
                    HQMLookupView::Nobody
                } else if found.len() == 1 {
                    HQMLookupView::One(found[0].0)
                } else {
                    HQMLookupView::Several(found)
                }
            },
        }
    }

    /// After a player was told that a text means nobody, or several players.
    pub open spec fn after_failed_lookup(
        self,
        lookup: HQMLookupView,
        hint: Seq<char>,
        index: HQMServerPlayerIndex,
    ) -> Self {
        match lookup {
            HQMLookupView::One(found) => self,
            HQMLookupView::Nobody => self.told("No matches found"@, index),
            HQMLookupView::Several(found) => self.told(hint, index).told_all(
                listing(found),
                index,
            ),
        }
    }

    /// After a command, with what is left to do.
    pub open spec fn after_command(
        self,
        command: Seq<char>,
        arg: Seq<char>,
        index: HQMServerPlayerIndex,
    ) -> (Self, HQMCommandActionView) {
        let nothing = HQMCommandActionView::Nothing;
        let target = match parsed_index(arg) {
            Some(n) => Some(HQMServerPlayerIndex(n)),
            None => None,
        };
        if command == "enablejoin"@ {
            (self, HQMCommandActionView::SetAllowJoin(true))
        } else if command == "disablejoin"@ {
            (self, HQMCommandActionView::SetAllowJoin(false))
        } else if command == "mute"@ {
            (
                self,
                match target {
                    Some(i) => HQMCommandActionView::MutePlayer(i),
                    None => nothing,
                },
            )
        } else if command == "unmute"@ {
            (
                self,
                match target {
                    Some(i) => HQMCommandActionView::UnmutePlayer(i),
                    None => nothing,
                },
            )
        } else if command == "mutechat"@ {
            (self, HQMCommandActionView::MuteChat)
        } else if command == "unmutechat"@ {
            (self, HQMCommandActionView::UnmuteChat)
        } else if command == "kick"@ {
            (
                self,
                match target {
                    Some(i) => HQMCommandActionView::KickPlayer { player_index: i, ban: false },
                    None => nothing,
                },
            )
        } else if command == "kickall"@ {
            (self, HQMCommandActionView::KickAllMatching { name: arg, ban: false })
        } else if command == "ban"@ {
            (
                self,
                match target {
                    Some(i) => HQMCommandActionView::KickPlayer { player_index: i, ban: true },
                    None => nothing,
                },
            )
        } else if command == "banall"@ {
            (self, HQMCommandActionView::KickAllMatching { name: arg, ban: true })
        } else if command == "clearbans"@ {
            (self, HQMCommandActionView::ClearBans)
        } else if command == "lefty"@ {
            (self, HQMCommandActionView::SetHand(HQMSkaterHand::Left))
        } else if command == "righty"@ {
            (self, HQMCommandActionView::SetHand(HQMSkaterHand::Right))
        } else if command == "admin"@ {
            (self, HQMCommandActionView::AdminLogin { password: arg })
        } else if command == "serverrestart"@ {
            (self, HQMCommandActionView::RestartServer)
        } else if command == "list"@ {
            (
                if arg.len() == 0 {
                    self.after_list(index, 0)
                } else {
                    match target {
                        Some(i) => self.after_list(index, i.0),
                        None => self,
                    }
                },
                nothing,
            )
        } else if command == "search"@ {
            (self.after_search(index, arg), nothing)
        } else if command == "ping"@ {
            match target {
                Some(i) => self.after_ping(i, index),
                None => (self, nothing),
            }
        } else if command == "pings"@ {
            match self.lookup(arg) {
                HQMLookupView::One(i) => self.after_ping(i, index),
                failed => (
                    self.after_failed_lookup(
                        failed,
                        "Multiple matches found, use /ping X"@,
                        index,
                    ),
                    nothing,
                ),
            }
        } else if command == "view"@ {
            (
                match target {
                    Some(i) => self.after_view(i, index),
                    None => self,
                },
                nothing,
            )
        } else if command == "views"@ {
            (
                match self.lookup(arg) {
                    HQMLookupView::One(i) => self.after_view(i, index),
                    failed => self.after_failed_lookup(
                        failed,
                        "Multiple matches found, use /view X"@,
                        index,
                    ),
                },
                nothing,
            )
        } else if command == "restoreview"@ {
            (self.after_restore_view(index), nothing)
        } else if command == "t"@ {
            (self.after_team_message(arg, index), nothing)
        } else if command == "lm"@ {
            (self.told("Stick limit is locked to 'no' on this server."@, index), nothing)
        } else {
            (self, HQMCommandActionView::Behaviour { command, arg })
        }
    }

    /// After a chat line of a player, with what is left to do.
    pub open spec fn after_chat(self, msg: Seq<char>, index: HQMServerPlayerIndex) -> (
        Self,
        HQMCommandActionView,
    ) {
        match player_at(self.players, index) {
            None => (self, HQMCommandActionView::Nothing),
            Some(p) => if is_command(msg) {
                self.after_command(command_word(msg), command_arg(msg), index)
            } else {
                (self.after_plain_chat(msg, index, p.is_muted), HQMCommandActionView::Nothing)
            },
        }
    }

    /// After plain chat: everyone hears it, or the speaker alone, or nobody.
    pub open spec fn after_plain_chat(
        self,
        msg: Seq<char>,
        index: HQMServerPlayerIndex,
        mute: HQMMuteStatus,
    ) -> Self {
        let chat = chat_message(Some(index), msg);
        if self.is_muted {
            self
        } else {
            match mute {
                HQMMuteStatus::NotMuted => self.saying(self.messages.global(chat, false, true)),
                HQMMuteStatus::ShadowMuted => self.saying(self.messages.directed(chat, index)),
                HQMMuteStatus::Muted => self,
            }
        }
    }

    /// The round-trip time that an update of a client shows: how long ago the tick
    /// was that the client acknowledges for the first time, if that is still known.
    pub open spec fn ping_sample(
        self,
        p: HQMServerPlayerView,
        game_id: u32,
        known_packet: u32,
        time: u64,
    ) -> Option<u64> {
        let age = self.packet - known_packet;
        if p.data.game_id == game_id && p.data.known_packet < known_packet && 0 <= age
            < self.saved_pings.len() && self.saved_pings[age] <= time {
            Some((time - self.saved_pings[age]) as u64)
        } else {
            None
        }
    }
}

/// What a client says of itself in every tick.
pub struct HQMClientUpdate {
    pub current_game_id: u32,
    pub input: HQMPlayerInput,
    pub deltatime: Option<u32>,
    pub new_known_packet: u32,
    pub known_msgpos: usize,
    pub client_version: HQMClientVersion,
}

impl HQMClientUpdate {
    /// The player after the update.
    pub open spec fn applied(
        self,
        p: HQMServerPlayerView,
        ping: Option<u64>,
    ) -> HQMServerPlayerView {
        HQMServerPlayerView {
            input: self.input,
            data: HQMNetworkPlayerDataView {
                inactivity: 0,
                client_version: self.client_version,
                known_packet: self.new_known_packet,
                game_id: self.current_game_id,
                known_msgpos: self.known_msgpos,
                deltatime: match self.deltatime {
                    Some(deltatime) => deltatime,
                    None => p.data.deltatime,
                },
                last_ping: match ping {
                    Some(time) => recorded(p.data.last_ping, time, PINGS_KEPT as nat),
                    None => p.data.last_ping,
                },
                ..p.data
            },
            ..p
        }
    }
}

impl HQMServerView {
    /// After an update of the client in a slot, but for its chat.
    pub open spec fn after_controls(
        self,
        index: HQMServerPlayerIndex,
        p: HQMServerPlayerView,
        update: HQMClientUpdate,
        time: u64,
    ) -> Self {
        let ping = self.ping_sample(p, update.current_game_id, update.new_known_packet, time);
        self.with_player(index, Some(update.applied(p, ping)))
    }

    /// After an update of a client, with what is left to do. Chat that the client
    /// repeats until it is acknowledged counts once.
    pub open spec fn after_update(
        self,
        addr: HQMSocketAddr,
        update: HQMClientUpdate,
        chat: Option<(u8, Seq<char>)>,
        time: u64,
    ) -> (Self, HQMCommandActionView) {
        match self.slot_of(addr) {
            None => (self, HQMCommandActionView::Nothing),
            Some(index) => {
                let p = player_at(self.players, index)->0;
                let after = self.after_controls(index, p, update, time);
                match chat {
                    Some((rep, message)) => if p.data.chat_rep != Some(rep) {
                        let heard = player_at(after.players, index)->0.heard(rep);
                        after.with_player(index, Some(heard)).after_chat(message, index)
                    } else {
                        (after, HQMCommandActionView::Nothing)
                    },
                    None => (after, HQMCommandActionView::Nothing),
                }
            },
        }
    }
}

/// What an optional chat line says.
pub open spec fn chat_view(chat: Option<(u8, String)>) -> Option<(u8, Seq<char>)> {
    match chat {
        Some((rep, message)) => Some((rep, message@)),
        None => None,
    }
}

impl HQMServerPlayerView {
    /// The player whose chat up to a number has been heard.
    pub open spec fn heard(self, rep: u8) -> HQMServerPlayerView {
        HQMServerPlayerView {
            data: HQMNetworkPlayerDataView { chat_rep: Some(rep), ..self.data },
            ..self
        }
    }
}

impl HQMServerPlayer {
    /// Takes over what a client says of itself.
    pub fn apply_update(&mut self, update: &HQMClientUpdate, ping: Option<u64>)
        ensures
            final(self)@ == update.applied(old(self)@, ping),
    {
        self.input = update.input;
        match &mut self.data {
            HQMServerPlayerData::NetworkPlayer { data } => {
                if let Some(time) = ping {
                    data.last_ping.truncate(PINGS_KEPT - 1);
                    data.last_ping.push_front(time);
                }
                data.inactivity = 0;
                data.client_version = update.client_version;
                data.known_packet = update.new_known_packet;
                data.game_id = update.current_game_id;
                data.known_msgpos = update.known_msgpos;
                if let Some(deltatime) = update.deltatime {
                    data.deltatime = deltatime;
                }
            },
        }
        assert(self@.data =~= update.applied(old(self)@, ping).data);
    }

    /// Whether chat of a number is new; it is not from now on.
    pub fn notice_chat(&mut self, rep: u8) -> (r: bool)
        ensures
            r == (old(self)@.data.chat_rep != Some(rep)),
            final(self)@ == old(self)@.heard(rep),
    {
        match &mut self.data {
            HQMServerPlayerData::NetworkPlayer { data } => {
                let new: bool = match data.chat_rep {
                    Some(last) => last != rep,
                    None => true,
                };
                data.chat_rep = Some(rep);
                new
            },
        }
    }
}

impl HQMServer {
    /// The round-trip time that an update of a client shows.
    pub fn measure_ping(
        &self,
        player: &HQMServerPlayer,
        update: &HQMClientUpdate,
        time_received: u64,
    ) -> (r: Option<u64>)
        ensures
            r == self@.ping_sample(
                player@,
                update.current_game_id,
                update.new_known_packet,
                time_received,
            ),
    {
        match &player.data {
            HQMServerPlayerData::NetworkPlayer { data } => {
                if data.game_id == update.current_game_id && data.known_packet
                    < update.new_known_packet {
                    match self.packet.checked_sub(update.new_known_packet) {
                        Some(diff) => {
                            let age: usize = diff as usize;
                            if age < self.saved_pings.len() {
                                time_received.checked_sub(self.saved_pings[age])
                            } else {
                                None
                            }
                        },
                        None => None,
                    }
                } else {
                    None
                }
            },
        }
    }

    /// Lets a spectator look through the eyes of another player.
    pub fn view_player(
        &mut self,
        view_player_index: HQMServerPlayerIndex,
        player_index: HQMServerPlayerIndex,
    )
        requires
            old(self)@.wf(),
        ensures
            final(self)@.wf(),
            final(self)@ == old(self)@.after_view(view_player_index, player_index),
    {
        let view_player_name = match self.players.get(view_player_index) {
            Some(view_player) => view_player.player_name.clone(),
            None => {
                self.messages.add_directed_server_chat_message(
                    Cow::Borrowed("No player with this ID exists"),
                    player_index,
                );
                return ;
            },
        };
        if let Some(player) = self.players.get_mut(player_index) {
            let ghost p = player@;
            let on_rink: bool = player.object.is_some();
            match &mut player.data {
                HQMServerPlayerData::NetworkPlayer { data } => {
                    if on_rink {
                        self.messages.add_directed_server_chat_message(
                            Cow::Borrowed("You must be a spectator to change view"),
                            player_index,
                        );
                    } else if view_player_index != data.view_player_index {
                        data.view_player_index = view_player_index;
                        if player_index != view_player_index {
                            let msg = "You are now viewing ".to_owned().concat(
                                view_player_name.as_str(),
                            );
                            self.messages.add_directed_server_chat_message(
                                Cow::Owned(msg),
                                player_index,
                            );
                        } else {
                            self.messages.add_directed_server_chat_message(
                                Cow::Borrowed("View has been restored"),
                                player_index,
                            );
                        }
                    }
                },
            }
        }
        assert(self@.players =~= old(self)@.after_view(view_player_index, player_index).players);
    }

    /// Gives a player the own view back.
    pub fn restore_view(&mut self, player_index: HQMServerPlayerIndex)
        requires
            old(self)@.wf(),
        ensures
            final(self)@.wf(),
            final(self)@ == old(self)@.after_restore_view(player_index),
    {
        if let Some(player) = self.players.get_mut(player_index) {
            match &mut player.data {
                HQMServerPlayerData::NetworkPlayer { data } => {
                    if data.view_player_index != player_index {
                        data.view_player_index = player_index;
                        self.messages.add_directed_server_chat_message(
                            Cow::Borrowed("View has been restored"),
                            player_index,
                        );
                    }
                },
            }
        }
        assert(self@.players =~= old(self)@.after_restore_view(player_index).players);
    }

    /// Looks up the round-trip times of a player.
    pub fn ping(
        &mut self,
        ping_player_index: HQMServerPlayerIndex,
        player_index: HQMServerPlayerIndex,
    ) -> (r: HQMCommandAction)
        requires
            old(self)@.wf(),
        ensures
            final(self)@.wf(),
            (final(self)@, r@) == old(self)@.after_ping(ping_player_index, player_index),
    {
        match self.players.get(ping_player_index) {
            Some(ping_player) => {
                let pings = match &ping_player.data {
                    HQMServerPlayerData::NetworkPlayer { data } => {
                        let n: usize = data.last_ping.len();
                        let mut pings: Vec<u64> = Vec::new();
                        for i in 0..n
                            invariant
                                n == data.last_ping@.len(),
                                pings@ == data.last_ping@.take(i as int),
                        {
                            pings.push(data.last_ping[i]);
                            assert(data.last_ping@.take(i + 1) =~= data.last_ping@.take(
                                i as int,
                            ).push(data.last_ping@[i as int]));
                        }
                        assert(pings@ =~= data.last_ping@);
                        pings
                    },
                };
                HQMCommandAction::ReportPing {
                    player_name: ping_player.player_name.clone(),
                    pings,
                }
            },
            None => {
                self.messages.add_directed_server_chat_message(
                    Cow::Borrowed("No player with this ID exists"),
                    player_index,
                );
                HQMCommandAction::Nothing
            },
        }
    }

    /// Finds out whom a text in a command means.
    pub fn lookup_player(&self, name: &str) -> (r: HQMLookup)
        ensures
            r@ == self@.lookup(name@),
    {
        match self.player_exact_unique_match(name) {
            Some((player_index, _)) => HQMLookup::One(player_index),
            None => {
                let matches = self.player_search(name);
                let n: usize = count_matches(&matches);
                if n == 0 {
                    HQMLookup::Nobody
                } else if n > 1 {
                    HQMLookup::Several(matches)
                } else {
                    HQMLookup::One(match_at(&matches, 0).0)
                }
            },
        }
    }

    /// Tells a player that a text means nobody, or several players.
    pub fn report_failed_lookup(
        &mut self,
        lookup: &HQMLookup,
        hint: &'static str,
        player_index: HQMServerPlayerIndex,
    )
        requires
            old(self)@.wf(),
        ensures
            final(self)@.wf(),
            final(self)@ == old(self)@.after_failed_lookup(lookup@, hint@, player_index),
    {
        match lookup {
            HQMLookup::One(_) => {},
            HQMLookup::Nobody => {
                self.messages.add_directed_server_chat_message(
                    Cow::Borrowed("No matches found"),
                    player_index,
                );
            },
            HQMLookup::Several(matches) => {
                self.messages.add_directed_server_chat_message(Cow::Borrowed(hint), player_index);
                self.list_matches(matches, player_index);
            },
        }
    }

    /// Carries out a command as far as the server can, and says what is left to do.
    pub fn process_command(
        &mut self,
        command: &str,
        arg: &str,
        player_index: HQMServerPlayerIndex,
    ) -> (r: HQMCommandAction)
        requires
            old(self)@.wf(),
        ensures
            final(self)@.wf(),
            (final(self)@, r@) == old(self)@.after_command(command@, arg@, player_index),
    {
        if same_text(command, "enablejoin") {
            HQMCommandAction::SetAllowJoin(true)
        } else if same_text(command, "disablejoin") {
            HQMCommandAction::SetAllowJoin(false)
        } else if same_text(command, "mute") {
            match HQMServerPlayerIndex::from_str(arg) {
                Ok(mute_player_index) => HQMCommandAction::MutePlayer(mute_player_index),
                Err(_) => HQMCommandAction::Nothing,
            }
        } else if same_text(command, "unmute") {
            match HQMServerPlayerIndex::from_str(arg) {
                Ok(mute_player_index) => HQMCommandAction::UnmutePlayer(mute_player_index),
                Err(_) => HQMCommandAction::Nothing,
            }
        } else if same_text(command, "mutechat") {
            HQMCommandAction::MuteChat
        } else if same_text(command, "unmutechat") {
            HQMCommandAction::UnmuteChat
        } else if same_text(command, "kick") {
            match HQMServerPlayerIndex::from_str(arg) {
                Ok(kick_player_index) => HQMCommandAction::KickPlayer {
                    player_index: kick_player_index,
                    ban: false,
                },
                Err(_) => HQMCommandAction::Nothing,
            }
        } else if same_text(command, "kickall") {
            HQMCommandAction::KickAllMatching { name: arg.to_owned(), ban: false }
        } else if same_text(command, "ban") {
            match HQMServerPlayerIndex::from_str(arg) {
                Ok(kick_player_index) => HQMCommandAction::KickPlayer {
                    player_index: kick_player_index,
                    ban: true,
                },
                Err(_) => HQMCommandAction::Nothing,
            }
        } else if same_text(command, "banall") {
            HQMCommandAction::KickAllMatching { name: arg.to_owned(), ban: true }
        } else if same_text(command, "clearbans") {
            HQMCommandAction::ClearBans
        } else if same_text(command, "lefty") {
            HQMCommandAction::SetHand(HQMSkaterHand::Left)
        } else if same_text(command, "righty") {
            HQMCommandAction::SetHand(HQMSkaterHand::Right)
        } else if same_text(command, "admin") {
            HQMCommandAction::AdminLogin { password: arg.to_owned() }
        } else if same_text(command, "serverrestart") {
            HQMCommandAction::RestartServer
        } else if same_text(command, "list") {
            if arg.is_empty() {
                self.list_players(player_index, 0);
            } else if let Some(first_index) = read_index(arg) {
                self.list_players(player_index, first_index);
            }
            HQMCommandAction::Nothing
        } else if same_text(command, "search") {
            self.search_players(player_index, arg);
            HQMCommandAction::Nothing
        } else if same_text(command, "ping") {
            match HQMServerPlayerIndex::from_str(arg) {
                Ok(ping_player_index) => self.ping(ping_player_index, player_index),
                Err(_) => HQMCommandAction::Nothing,
            }
        } else if same_text(command, "pings") {
            let lookup = self.lookup_player(arg);
            match &lookup {
                HQMLookup::One(ping_player_index) => self.ping(*ping_player_index, player_index),
                _ => {
                    self.report_failed_lookup(
                        &lookup,
                        "Multiple matches found, use /ping X",
                        player_index,
                    );
                    HQMCommandAction::Nothing
                },
            }
        } else if same_text(command, "view") {
            if let Ok(view_player_index) = HQMServerPlayerIndex::from_str(arg) {
                self.view_player(view_player_index, player_index);
            }
            HQMCommandAction::Nothing
        } else if same_text(command, "views") {
            let lookup = self.lookup_player(arg);
            match &lookup {
                HQMLookup::One(view_player_index) => {
                    self.view_player(*view_player_index, player_index);
                },
                _ => {
                    self.report_failed_lookup(
                        &lookup,
                        "Multiple matches found, use /view X",
                        player_index,
                    );
                },
            }
            HQMCommandAction::Nothing
        } else if same_text(command, "restoreview") {
            self.restore_view(player_index);
            HQMCommandAction::Nothing
        } else if same_text(command, "t") {
            self.add_user_team_message(arg, player_index);
            HQMCommandAction::Nothing
        } else if same_text(command, "lm") {
            self.messages.add_directed_server_chat_message(
                Cow::Borrowed("Stick limit is locked to 'no' on this server."),
                player_index,
            );
            HQMCommandAction::Nothing
        } else {
            HQMCommandAction::Behaviour { command: command.to_owned(), arg: arg.to_owned() }
        }
    }

    /// Takes a chat line of a player, and says what is left to do for it.
    pub fn process_message(&mut self, msg: String, player_index: HQMServerPlayerIndex) -> (r:
        HQMCommandAction)
        requires
            old(self)@.wf(),
        ensures
            final(self)@.wf(),
            (final(self)@, r@) == old(self)@.after_chat(msg@, player_index),
    {
        let mute = match self.players.get(player_index) {
            Some(player) => player.is_muted,
            None => {
                return HQMCommandAction::Nothing;
            },
        };
        match split_command(msg.as_str()) {
            Some((command, arg)) => self.process_command(
                command.as_str(),
                arg.as_str(),
                player_index,
            ),
            None => {
                if !self.is_muted {
                    match mute {
                        HQMMuteStatus::NotMuted => {
                            self.messages.add_user_chat_message(Cow::Owned(msg), player_index);
                        },
                        HQMMuteStatus::ShadowMuted => {
                            self.messages.add_directed_user_chat_message(
                                Cow::Owned(msg),
                                player_index,
                                player_index,
                            );
                        },
                        HQMMuteStatus::Muted => {},
                    }
                }
                HQMCommandAction::Nothing
            },
        }
    }

    /// Takes over what the client in a slot says of itself; returns its chat if it
    /// is new.
    pub fn take_update(
        &mut self,
        player_index: HQMServerPlayerIndex,
        update: &HQMClientUpdate,
        chat: Option<(u8, String)>,
        time_received: u64,
    ) -> (r: Option<String>)
        requires
            old(self)@.wf(),
            player_at(old(self)@.players, player_index) is Some,
        ensures
            final(self)@.wf(),
            ({
                let p = player_at(old(self)@.players, player_index)->0;
                let after = old(self)@.after_controls(player_index, p, *update, time_received);
                if chat is Some && p.data.chat_rep != Some((chat->0).0) {
                    r == Some((chat->0).1) && final(self)@ == after.with_player(
                        player_index,
                        Some(player_at(after.players, player_index)->0.heard((chat->0).0)),
                    )
                } else {
                    r is None && final(self)@ == after
                }
            }),
    {
        let ghost p = player_at(self@.players, player_index)->0;
        let ghost after = self@.after_controls(player_index, p, *update, time_received);
        let ping = match self.players.get(player_index) {
            Some(player) => self.measure_ping(player, update, time_received),
            None => None,
        };
        let mut heard: Option<String> = None;
        if let Some(player) = self.players.get_mut(player_index) {
            player.apply_update(update, ping);
            assert(player@ == player_at(after.players, player_index)->0);
            if let Some((rep, message)) = chat {
                if player.notice_chat(rep) {
                    heard = Some(message);
                }
            }
        }
        assert(self@.players =~= if heard is Some {
            after.players.update(
                player_index.0 as int,
                Some(player_at(after.players, player_index)->0.heard((chat->0).0)),
            )
        } else {
            after.players
        });
        heard
    }

    /// Takes an update of a client, which came at `time_received` by the clock of
    /// the ticks. Returns the client's slot and what is left to do for its chat.
    pub fn player_update(
        &mut self,
        addr: HQMSocketAddr,
        update: HQMClientUpdate,
        chat: Option<(u8, String)>,
        time_received: u64,
    ) -> (r: Option<(HQMServerPlayerIndex, HQMCommandAction)>)
        requires
            old(self)@.wf(),
        ensures
            final(self)@.wf(),
            match old(self)@.slot_of(addr) {
                Some(index) => r is Some && (r->0).0 == index && (final(self)@, (r->0).1@) == old(
                    self,
                )@.after_update(addr, update, chat_view(chat), time_received),
                None => r is None && final(self)@ == old(self)@,
            },
    {
        proof {
            lemma_first_slot(self@.players, lives_at(addr), 0);
        }
        let player_index = match self.find_player_slot(addr) {
            Some(x) => x,
            None => {
                return None;
            },
        };
        let heard = self.take_update(player_index, &update, chat, time_received);
        match heard {
            Some(message) => {
                let action = self.process_message(message, player_index);
                Some((player_index, action))
            },
            None => Some((player_index, HQMCommandAction::Nothing)),
        }
    }
}

} // verus!
