//! The settings the service runs with.

use crate::model::{ChannelId, RoleId};
use vstd::prelude::*;

verus! {

/// Credentials and the channels and role that the service works with.
pub struct Config {
    pub token: String,
    /// The text channel where the service reports to everyone.
    pub broadcast_channel: ChannelId,
    /// The voice channel of the living players.
    pub living_channel: ChannelId,
    /// The voice channel where dead players wait out the round.
    pub dead_channel: ChannelId,
    /// Members holding this role are spectators and are never muted or moved.
    pub spectator_role: RoleId,
}

} // verus!
