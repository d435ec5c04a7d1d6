//! The values that the library reads: players, observed game states and
//! voice-channel occupants.

use vstd::prelude::*;

verus! {

/// Identifier of a chat-platform user.
pub type UserId = u64;

/// Identifier of a chat-platform channel.
pub type ChannelId = u64;

/// Identifier of a guild (server).
pub type GuildId = u64;

/// Identifier of a chat message.
pub type MessageId = u64;

/// Identifier of a guild role.
pub type RoleId = u64;

/// A player of the running round, as the game reports it.
#[derive(Debug)]
pub struct Player {
    pub name: String,
    pub dead: bool,
    pub impostor: bool,
}

impl Player {
    /// A copy of the player.
    pub fn duplicate(&self) -> (r: Player)
        ensures
            r == *self,
    {
        Player { name: self.name.clone(), dead: self.dead, impostor: self.impostor }
    }
}

/// Where in a meeting the game is, if in one.
#[derive(Clone, Copy, Debug, PartialEq, Eq, Structural)]
pub enum MeetingState {
    NoMeeting,
    Discussion,
    NotVoted,
    Voted,
    Results,
}

impl MeetingState {
    /// Whether the game is in one of the phases of a meeting.
    pub open spec fn is_meeting_spec(self) -> bool {
        !(self is NoMeeting)
    }

    pub fn is_meeting(self) -> (r: bool)
        ensures
            r == self.is_meeting_spec(),
    {
        match self {
            MeetingState::NoMeeting => false,
            _ => true,
        }
    }
}

/// The state of the game as observed from outside.
#[derive(Debug)]
pub enum State {
    Lobby { players: Vec<Player> },
    Menu,
    InGame { players: Vec<Player>, meeting: MeetingState },
}

/// The roster that an observed state carries: the players of a lobby or of a
/// running game, and none otherwise.
pub open spec fn roster(observed: Option<State>) -> Option<Seq<Player>> {
    match observed {
        Some(State::Lobby { players }) => Some(players@),
        Some(State::InGame { players, .. }) => Some(players@),
        _ => None,
    }
}

/// A member present in a voice channel.
#[derive(Debug)]
pub struct VoiceOccupant {
    pub user_id: UserId,
    pub guild_id: GuildId,
    pub roles: Vec<RoleId>,
    /// The member's nickname in the guild, if set.
    pub nick: Option<String>,
    /// The name of the member's account.
    pub name: String,
    /// Whether the account is a bot.
    pub bot: bool,
}

/// How a member is known: the name under which it is shown.
pub trait KnownAs {
    spec fn known_as_spec(&self) -> Seq<char>;

    fn known_as(&self) -> (r: String)
        ensures
            r@ == self.known_as_spec(),
    ;
}

impl KnownAs for VoiceOccupant {
    /// The guild nickname where one is set, else the account name.
    open spec fn known_as_spec(&self) -> Seq<char> {
        match self.nick {
            Some(nick) => nick@,
            None => self.name@,
        }
    }

    fn known_as(&self) -> (r: String) {
        match &self.nick {
            Some(nick) => nick.clone(),
            None => self.name.clone(),
        }
    }
}

} // verus!
