//! Voice-channel moderation for rounds of a social deduction game.
//!
//! The library holds the state of the running round, matches voice-channel
//! occupants to in-game players, follows the observed game lifecycle, and
//! plans the voice-state updates that the surrounding service sends to the
//! chat platform. Every plan is a plain list of requests; sending them and
//! collecting their outcomes happens outside.

pub mod batch;
pub mod bot;
pub mod config;
pub mod context;
pub mod lifecycle;
pub mod matcher;
pub mod model;

pub use model::{
    ChannelId, GuildId, KnownAs, MeetingState, MessageId, Player, RoleId, State, UserId,
    VoiceOccupant,
};

pub use batch::{BatchReport, VoiceUpdate};
pub use bot::{Bot, Builder, Channels};
pub use config::Config;
pub use context::Context;
pub use lifecycle::{BotState, Transition};
