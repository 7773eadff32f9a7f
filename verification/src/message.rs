//! Messages to clients, and the lists in which they wait, persist and are recorded.

use crate::game::{HQMObjectIndex, HQMTeam};
use crate::player::HQMServerPlayerIndex;
use std::borrow::Cow;
use std::rc::Rc;
use vstd::prelude::*;

verus! {

/// A message that clients are told.
#[derive(Debug)]
#[allow(inconsistent_fields)]
pub enum HQMMessage {
    PlayerUpdate {
        player_name: Rc<String>,
        object: Option<(HQMObjectIndex, HQMTeam)>,
        player_index: HQMServerPlayerIndex,
        in_server: bool,
    },
    Goal {
        team: HQMTeam,
        goal_player_index: Option<HQMServerPlayerIndex>,
        assist_player_index: Option<HQMServerPlayerIndex>,
    },
    Chat { player_index: Option<HQMServerPlayerIndex>, message: Cow<'static, str> },
}

/// A message as its characters and numbers.
#[allow(inconsistent_fields)]
pub enum HQMMessageView {
    PlayerUpdate {
        player_name: Seq<char>,
        object: Option<(HQMObjectIndex, HQMTeam)>,
        player_index: HQMServerPlayerIndex,
        in_server: bool,
    },
    Goal {
        team: HQMTeam,
        goal_player_index: Option<HQMServerPlayerIndex>,
        assist_player_index: Option<HQMServerPlayerIndex>,
    },
    Chat { player_index: Option<HQMServerPlayerIndex>, message: Seq<char> },
}

impl View for HQMMessage {
    type V = HQMMessageView;

    open spec fn view(&self) -> HQMMessageView {
        match self {
            HQMMessage::PlayerUpdate { player_name, object, player_index, in_server } =>
                HQMMessageView::PlayerUpdate {
                player_name: (**player_name)@,
                object: *object,
                player_index: *player_index,
                in_server: *in_server,
            },
            HQMMessage::Goal { team, goal_player_index, assist_player_index } =>
                HQMMessageView::Goal {
                team: *team,
                goal_player_index: *goal_player_index,
                assist_player_index: *assist_player_index,
            },
            HQMMessage::Chat { player_index, message } => HQMMessageView::Chat {
                player_index: *player_index,
                message: message@,
            },
        }
    }
}

impl Clone for HQMMessage {
    fn clone(&self) -> (r: Self)
        ensures
            r@ == self@,
    {
        match self {
            HQMMessage::PlayerUpdate { player_name, object, player_index, in_server } =>
                HQMMessage::PlayerUpdate {
                player_name: player_name.clone(),
                object: *object,
                player_index: *player_index,
                in_server: *in_server,
            },
            HQMMessage::Goal { team, goal_player_index, assist_player_index } => HQMMessage::Goal {
                team: *team,
                goal_player_index: *goal_player_index,
                assist_player_index: *assist_player_index,
            },
            HQMMessage::Chat { player_index, message } => HQMMessage::Chat {
                player_index: *player_index,
                message: match message {
                    Cow::Borrowed(text) => Cow::Borrowed(text),
                    Cow::Owned(text) => Cow::Owned(text.clone()),
                },
            },
        }
    }
}

/// What the members of a list of messages say.
pub open spec fn message_views(s: Seq<Rc<HQMMessage>>) -> Seq<HQMMessageView> {
    Seq::new(s.len(), |i: int| (*s[i])@)
}

/// Chat that comes from a player, or from the server.
pub open spec fn chat_message(
    sender: Option<HQMServerPlayerIndex>,
    message: Seq<char>,
) -> HQMMessageView {
    HQMMessageView::Chat { player_index: sender, message }
}

/// Who a waiting message is for.
#[derive(Debug, Copy, Clone)]
pub enum HQMWaitingMessageReceiver {
    All,
    Specific(HQMServerPlayerIndex),
}

impl HQMWaitingMessageReceiver {
    /// Whether a message for this receiver is for the player in slot `i`.
    pub open spec fn includes(self, i: int) -> bool {
        match self {
            HQMWaitingMessageReceiver::All => true,
            HQMWaitingMessageReceiver::Specific(index) => index.0 == i,
        }
    }
}

/// The messages of the current game.
pub struct HQMServerMessages {
    /// What a player who joins later is told first.
    pub persistent_messages: Vec<Rc<HQMMessage>>,
    /// What goes into the replay.
    pub replay_messages: Vec<Rc<HQMMessage>>,
    /// What the players will be told at the end of this tick.
    pub waiting_messages: Vec<(HQMWaitingMessageReceiver, Rc<HQMMessage>)>,
}

/// The messages of the current game, as what they say.
#[verifier::ext_equal]
pub struct HQMServerMessagesView {
    pub persistent_messages: Seq<HQMMessageView>,
    pub replay_messages: Seq<HQMMessageView>,
    pub waiting_messages: Seq<(HQMWaitingMessageReceiver, HQMMessageView)>,
}

/// What the members of a list of waiting messages say, and to whom.
pub open spec fn waiting_views(
    s: Seq<(HQMWaitingMessageReceiver, Rc<HQMMessage>)>,
) -> Seq<(HQMWaitingMessageReceiver, HQMMessageView)> {
    Seq::new(s.len(), |i: int| (s[i].0, (*s[i].1)@))
}

impl View for HQMServerMessages {
    type V = HQMServerMessagesView;

    open spec fn view(&self) -> HQMServerMessagesView {
        HQMServerMessagesView {
            persistent_messages: message_views(self.persistent_messages@),
            replay_messages: message_views(self.replay_messages@),
            waiting_messages: waiting_views(self.waiting_messages@),
        }
    }
}

impl HQMServerMessagesView {
    /// No messages.
    pub open spec fn none() -> Self {
        HQMServerMessagesView {
            persistent_messages: seq![],
            replay_messages: seq![],
            waiting_messages: seq![],
        }
    }

    /// After a message for everyone.
    pub open spec fn global(self, message: HQMMessageView, persistent: bool, replay: bool) -> Self {
        HQMServerMessagesView {
            persistent_messages: if persistent {
                self.persistent_messages.push(message)
            } else {
                self.persistent_messages
            },
            replay_messages: if replay {
                self.replay_messages.push(message)
            } else {
                self.replay_messages
            },
            waiting_messages: self.waiting_messages.push((HQMWaitingMessageReceiver::All, message)),
        }
    }

    /// After a message for one player.
    pub open spec fn directed(
        self,
        message: HQMMessageView,
        receiver: HQMServerPlayerIndex,
    ) -> Self {
        HQMServerMessagesView {
            waiting_messages: self.waiting_messages.push(
                (HQMWaitingMessageReceiver::Specific(receiver), message),
            ),
            ..self
        }
    }

    /// After a player told everyone something.
    pub open spec fn user_chat(self, message: Seq<char>, sender: HQMServerPlayerIndex) -> Self {
        self.global(chat_message(Some(sender), message), false, true)
    }

    /// After a player, or the server, told one player something.
    pub open spec fn directed_chat(
        self,
        message: Seq<char>,
        receiver: HQMServerPlayerIndex,
        sender: Option<HQMServerPlayerIndex>,
    ) -> Self {
        self.directed(chat_message(sender, message), receiver)
    }

    /// After a goal.
    pub open spec fn goal(
        self,
        team: HQMTeam,
        goal_player_index: Option<HQMServerPlayerIndex>,
        assist_player_index: Option<HQMServerPlayerIndex>,
    ) -> Self {
        self.global(
            HQMMessageView::Goal { team, goal_player_index, assist_player_index },
            true,
            true,
        )
    }

    /// After the server told everyone something.
    pub open spec fn server_chat(self, message: Seq<char>) -> Self {
        self.global(chat_message(None, message), false, true)
    }

    /// After the server told one player something.
    pub open spec fn told(self, message: Seq<char>, receiver: HQMServerPlayerIndex) -> Self {
        self.directed(chat_message(None, message), receiver)
    }

    /// After the server told one player several things in turn.
    pub open spec fn told_all(
        self,
        lines: Seq<Seq<char>>,
        receiver: HQMServerPlayerIndex,
    ) -> Self
        decreases lines.len(),
    {
        if lines.len() == 0 {
            self
        } else {
            self.told_all(lines.drop_last(), receiver).told(lines.last(), receiver)
        }
    }
}

impl HQMServerMessages {
    pub fn new() -> (r: Self)
        ensures
            r@ == HQMServerMessagesView::none(),
    {
        let r = HQMServerMessages {
            persistent_messages: Vec::with_capacity(1024),
            replay_messages: Vec::with_capacity(1024),
            waiting_messages: Vec::with_capacity(64),
        };
        assert(r@ =~= HQMServerMessagesView::none());
        r
    }

    pub fn clear(&mut self)
        ensures
            final(self)@ == HQMServerMessagesView::none(),
    {
        self.persistent_messages.clear();
        self.replay_messages.clear();
        self.waiting_messages.clear();
        assert(self@ =~= HQMServerMessagesView::none());
    }

    /// Chat of a player for everyone.
    pub fn add_user_chat_message(
        &mut self,
        message: Cow<'static, str>,
        sender_index: HQMServerPlayerIndex,
    )
        ensures
            final(self)@ == old(self)@.user_chat(message@, sender_index),
    {
        let chat = HQMMessage::Chat { player_index: Some(sender_index), message };
        self.add_global_message(chat, false, true);
    }

    /// Chat of the server for everyone.
    pub fn add_server_chat_message(&mut self, message: Cow<'static, str>)
        ensures
            final(self)@ == old(self)@.server_chat(message@),
    {
        let chat = HQMMessage::Chat { player_index: None, message };
        self.add_global_message(chat, false, true);
    }

    /// Chat for one player.
    pub fn add_directed_chat_message(
        &mut self,
        message: Cow<'static, str>,
        receiver_index: HQMServerPlayerIndex,
        sender_index: Option<HQMServerPlayerIndex>,
    )
        ensures
            final(self)@ == old(self)@.directed_chat(message@, receiver_index, sender_index),
    {
        let chat = HQMMessage::Chat { player_index: sender_index, message };
        self.add_directed_message(chat, receiver_index);
    }

    /// Chat of a player for one player.
    pub fn add_directed_user_chat_message(
        &mut self,
        message: Cow<'static, str>,
        receiver_index: HQMServerPlayerIndex,
        sender_index: HQMServerPlayerIndex,
    )
        ensures
            final(self)@ == old(self)@.directed_chat(
                message@,
                receiver_index,
                Some(sender_index),
            ),
    {
        self.add_directed_chat_message(message, receiver_index, Some(sender_index));
    }

    /// Chat of the server for one player.
    pub fn add_directed_server_chat_message(
        &mut self,
        message: Cow<'static, str>,
        receiver_index: HQMServerPlayerIndex,
    )
        ensures
            final(self)@ == old(self)@.told(message@, receiver_index),
    {
        self.add_directed_chat_message(message, receiver_index, None);
    }

    /// A goal, which those who join later are told too.
    pub fn add_goal_message(
        &mut self,
        team: HQMTeam,
        goal_player_index: Option<HQMServerPlayerIndex>,
        assist_player_index: Option<HQMServerPlayerIndex>,
    )
        ensures
            final(self)@ == old(self)@.goal(team, goal_player_index, assist_player_index),
    {
        let message = HQMMessage::Goal { team, goal_player_index, assist_player_index };
        self.add_global_message(message, true, true);
    }

    /// Any message for everyone.
    pub fn add_global_message(&mut self, message: HQMMessage, persistent: bool, replay: bool)
        ensures
            final(self)@ == old(self)@.global(message@, persistent, replay),
    {
        let rc = Rc::new(message);
        if replay {
            self.replay_messages.push(rc.clone());
        }
        if persistent {
            self.persistent_messages.push(rc.clone());
        }
        self.waiting_messages.push((HQMWaitingMessageReceiver::All, rc));
        assert(self@ =~= old(self)@.global(message@, persistent, replay));
    }

    /// Any message for one player.
    pub fn add_directed_message(&mut self, message: HQMMessage, receiver: HQMServerPlayerIndex)
        ensures
            final(self)@ == old(self)@.directed(message@, receiver),
    {
        let rc = Rc::new(message);
        self.waiting_messages.push((HQMWaitingMessageReceiver::Specific(receiver), rc));
        assert(self@ =~= old(self)@.directed(message@, receiver));
    }
}

} // verus!
