//! The service driven by the observed game state: its start-up checks, the
//! names that players go by, the routines of each phase of a round, and the
//! commands that players give it.

use crate::batch::{
    distinct_users, failure_count, lemma_outcomes_partition, lemma_plan_over_absent,
    lemma_plan_over_single, lemma_plan_over_step, lemma_requests_for_append, move_to, outcome_indices, plan_over, requests_for, set_mute,
    split_outcomes, BatchReport, VoiceUpdate,
};
use crate::config::Config;
use crate::context::{
    end_game_updates, lemma_rule_addressed, plan_members, rule_plan, rule_request, MemberRule,
};
use crate::lifecycle::{is_over_after_meeting, over_after_meeting, phase_after_meeting, BotState};
use crate::matcher::{
    lemma_first_match, lemma_unmatched_listed, lookup_key, match_of, match_players, participants,
    present_members, unmatched_members, unmatched_users,
};
use crate::model::{roster, ChannelId, Player, RoleId, State, UserId, VoiceOccupant};
use std::collections::{HashMap, HashSet};
use twilight_mention::ParseMention;
use vstd::prelude::*;

verus! {

broadcast use vstd::std_specs::hash::group_hash_axioms;

/// The user id that a mention (`<@123>` or `<@!123>`) at the start of the
/// text names, if the text starts with one.
pub uninterp spec fn user_mention_id(text: Seq<char>) -> Option<UserId>;

/// Relies on twilight_mention's `ParseMention::parse` for `UserId`: reads a
/// user mention at the start of the text (what follows its closing `>` is
/// ignored), which depends on the text alone; without its leading `<` the
/// text is no mention.
#[verifier::external_body]
fn parse_user_mention(text: &str) -> (r: Option<UserId>)
    ensures
        r == user_mention_id(text@),
        (text@.len() == 0 || text@[0] != '<') ==> r is None,
{
    twilight_model::id::UserId::parse(text).ok().map(|id| id.0)
}

/// The channels and the role that the service works with.
#[derive(Clone, Copy, Debug, PartialEq, Eq, Structural)]
pub struct Channels {
    pub broadcast_channel: ChannelId,
    pub living_channel: ChannelId,
    pub dead_channel: ChannelId,
    pub spectator_role: RoleId,
}

/// What the chat platform says a configured channel is.
#[derive(Clone, Copy, Debug, PartialEq, Eq, Structural)]
pub enum ChannelKind {
    /// A text channel of a guild.
    Text,
    /// A voice channel of a guild.
    Voice,
    /// Another kind of guild channel.
    OtherGuild,
    /// A channel outside any guild.
    NotGuild,
    /// No such channel.
    Missing,
}

/// Why the service refuses to start.
#[derive(Clone, Copy, Debug, PartialEq, Eq, Structural)]
pub enum BuildError {
    MissingChannel(ChannelId),
    NotInGuild(ChannelId),
    /// The broadcast channel is not a text channel, or a voice channel is not
    /// one.
    WrongKind(ChannelId),
}

/// The fault, if any, of channel `id` of kind `kind`, which should be a
/// voice channel where `voice` holds and a text channel otherwise.
pub open spec fn channel_fault(id: ChannelId, kind: ChannelKind, voice: bool) -> Option<BuildError> {
    match kind {
        ChannelKind::Missing => Some(BuildError::MissingChannel(id)),
        ChannelKind::NotGuild => Some(BuildError::NotInGuild(id)),
        ChannelKind::Text => if voice {
            Some(BuildError::WrongKind(id))
        } else {
            None
        },
        ChannelKind::Voice => if voice {
            None
        } else {
            Some(BuildError::WrongKind(id))
        },
        ChannelKind::OtherGuild => Some(BuildError::WrongKind(id)),
    }
}

fn check_channel(id: ChannelId, kind: ChannelKind, voice: bool) -> (r: Option<BuildError>)
    ensures
        r == channel_fault(id, kind, voice),
{
    match kind {
        ChannelKind::Missing => Some(BuildError::MissingChannel(id)),
        ChannelKind::NotGuild => Some(BuildError::NotInGuild(id)),
        ChannelKind::Text => if voice {
            Some(BuildError::WrongKind(id))
        } else {
            None
        },
        ChannelKind::Voice => if voice {
            None
        } else {
            Some(BuildError::WrongKind(id))
        },
        ChannelKind::OtherGuild => Some(BuildError::WrongKind(id)),
    }
}

/// The owners of the application: the members of its team where it has one,
/// else its owner.
pub open spec fn owners_of(owner: UserId, team: Option<Seq<UserId>>) -> Set<UserId> {
    match team {
        Some(members) => members.to_set(),
        None => set![owner],
    }
}

/// The settings of the service before its channels have been checked.
pub struct Builder {
    pub channels: Channels,
}

/// The service: who it is, who owns it, its channels, and the in-game names
/// that members have been given.
pub struct Bot {
    bot_id: UserId,
    owners: HashSet<UserId>,
    channels: Channels,
    player_names: HashMap<UserId, String>,
}

/// How a routine of the service treats a member, going by the player it is
/// matched to.
#[derive(Clone, Copy, Debug, PartialEq, Eq, Structural)]
pub enum RosterRule {
    /// Start of a meeting: a member matched to a living player is unmuted.
    Unmute,
    /// Start of the round and end of a meeting: a member matched to a dead
    /// player is sent to the dead channel and unmuted, one matched to a
    /// living player is muted.
    Remute,
}

/// The request that `rule` gives member `m`; a member matched to no player
/// gets none.
pub open spec fn roster_request(
    rule: RosterRule,
    aliases: Map<UserId, String>,
    players: Seq<Player>,
    channel: ChannelId,
    m: VoiceOccupant,
) -> Option<VoiceUpdate> {
    match match_of(aliases, players, m) {
        Some(p) => match rule {
            RosterRule::Unmute => if p.dead {
                None
            } else {
                Some(set_mute(m, false))
            },
            RosterRule::Remute => if p.dead {
                Some(move_to(m, channel, Some(false)))
            } else {
                Some(set_mute(m, true))
            },
        },
        None => None,
    }
}

/// The plan that `rule` gives the members `ms`.
pub open spec fn roster_plan(
    rule: RosterRule,
    ms: Seq<VoiceOccupant>,
    aliases: Map<UserId, String>,
    players: Seq<Player>,
    channel: ChannelId,
) -> Seq<VoiceUpdate> {
    plan_over(ms, |m: VoiceOccupant| roster_request(rule, aliases, players, channel, m))
}

/// Gives each member of `members` the request of `rule`, in order.
fn plan_by_roster(
    members: &Vec<VoiceOccupant>,
    rule: RosterRule,
    players: &Vec<Player>,
    aliases: &HashMap<UserId, String>,
    channel: ChannelId,
) -> (r: Vec<VoiceUpdate>)
    ensures
        r@ == roster_plan(rule, members@, aliases@, players@, channel),
{
    let matches = match_players(members, players, aliases);
    let ghost req = |m: VoiceOccupant| roster_request(rule, aliases@, players@, channel, m);
    let mut out: Vec<VoiceUpdate> = Vec::new();
    let mut i: usize = 0;
    while i < members.len()
        invariant
            i <= members@.len(),
            matches@.len() == members@.len(),
            forall|j: int|
                0 <= j < members@.len() ==> #[trigger] matches@[j] == match_of(
                    aliases@,
                    players@,
                    members@[j],
                ),
            req == (|m: VoiceOccupant| roster_request(rule, aliases@, players@, channel, m)),
            out@ == plan_over(members@.subrange(0, i as int), req),
        decreases members@.len() - i,
    {
        proof {
            lemma_plan_over_step(members@, i as int, req);
        }
        let m = &members[i];
        match &matches[i] {
            Some(p) => match rule {
                RosterRule::Unmute => if !p.dead {
                    out.push(
                        VoiceUpdate {
                            guild_id: m.guild_id,
                            user_id: m.user_id,
                            mute: Some(false),
                            channel: None,
                        },
                    );
                },
                RosterRule::Remute => if p.dead {
                    out.push(
                        VoiceUpdate {
                            guild_id: m.guild_id,
                            user_id: m.user_id,
                            mute: Some(false),
                            channel: Some(channel),
                        },
                    );
                } else {
                    out.push(
                        VoiceUpdate {
                            guild_id: m.guild_id,
                            user_id: m.user_id,
                            mute: Some(true),
                            channel: None,
                        },
                    );
                },
            },
            None => {},
        }
        i = i + 1;
    }
    assert(members@.subrange(0, members@.len() as int) =~= members@);
    out
}

/// The roster that an observed state carries.
fn roster_of(observed: &Option<State>) -> (r: Option<&Vec<Player>>)
    ensures
        r is Some == roster(*observed) is Some,
        r is Some ==> r->0@ == roster(*observed)->0,
{
    match observed {
        Some(State::Lobby { players }) => Some(players),
        Some(State::InGame { players, .. }) => Some(players),
        _ => None,
    }
}

/// The requests that start a meeting: members of the living channel matched
/// to a living player are unmuted, the members of the dead channel are
/// brought to the living channel, muted.
pub open spec fn start_meeting_updates(
    aliases: Map<UserId, String>,
    players: Seq<Player>,
    living: Seq<VoiceOccupant>,
    dead: Seq<VoiceOccupant>,
    living_channel: ChannelId,
) -> Seq<VoiceUpdate> {
    roster_plan(RosterRule::Unmute, living, aliases, players, living_channel) + rule_plan(
        MemberRule::Recall,
        dead,
        Set::empty(),
        living_channel,
    )
}

/// A member whose lookup name is exactly the name of some player is matched
/// to a player of that name. A member whose lookup name is no player's name
/// is reported unmatched, and no routine that goes by the roster asks
/// anything of it.
pub proof fn lemma_identity_matching(
    aliases: Map<UserId, String>,
    players: Seq<Player>,
    ms: Seq<VoiceOccupant>,
    k: int,
    rule: RosterRule,
    channel: ChannelId,
)
    requires
        0 <= k < ms.len(),
        distinct_users(ms),
    ensures
        (exists|j: int| 0 <= j < players.len() && #[trigger] players[j].name@ == lookup_key(aliases, ms[k]))
            ==> {
            &&& match_of(aliases, players, ms[k]) is Some
            &&& match_of(aliases, players, ms[k])->0.name@ == lookup_key(aliases, ms[k])
        },
        !(exists|j: int| 0 <= j < players.len() && #[trigger] players[j].name@ == lookup_key(aliases, ms[k]))
            ==> {
            &&& match_of(aliases, players, ms[k]) is None
            &&& unmatched_users(aliases, players, ms).contains(ms[k].user_id)
            &&& requests_for(roster_plan(rule, ms, aliases, players, channel), ms[k].user_id)
                == Seq::<VoiceUpdate>::empty()
        },
{
    lemma_first_match(players, lookup_key(aliases, ms[k]));
    if match_of(aliases, players, ms[k]) is None {
        lemma_unmatched_listed(aliases, players, ms, k);
        let req = |m: VoiceOccupant| roster_request(rule, aliases, players, channel, m);
        lemma_plan_over_single(ms, req, k);
    }
}

/// Starting a meeting, going by the roster, asks nothing of a member of the
/// living channel that matches no player, exactly one move to the living
/// channel, muted, of each member of the dead channel, and nothing of any
/// user in neither channel.
pub proof fn lemma_start_meeting_requests(
    aliases: Map<UserId, String>,
    players: Seq<Player>,
    living: Seq<VoiceOccupant>,
    dead: Seq<VoiceOccupant>,
    living_channel: ChannelId,
    user: UserId,
)
    requires
        distinct_users(living + dead),
    ensures
        forall|k: int|
            0 <= k < living.len() && match_of(aliases, players, living[k]) is None
                ==> #[trigger] requests_for(
                start_meeting_updates(aliases, players, living, dead, living_channel),
                living[k].user_id,
            ) == Seq::<VoiceUpdate>::empty(),
        forall|k: int|
            0 <= k < dead.len() ==> #[trigger] requests_for(
                start_meeting_updates(aliases, players, living, dead, living_channel),
                dead[k].user_id,
            ) == seq![move_to(dead[k], living_channel, Some(true))],
        (forall|i: int| 0 <= i < living.len() ==> #[trigger] living[i].user_id != user) && (forall|
            i: int,
        |
            0 <= i < dead.len() ==> #[trigger] dead[i].user_id != user) ==> requests_for(
            start_meeting_updates(aliases, players, living, dead, living_channel),
            user,
        ) == Seq::<VoiceUpdate>::empty(),
{
    let unmute = |m: VoiceOccupant|
        roster_request(RosterRule::Unmute, aliases, players, living_channel, m);
    let recall = |m: VoiceOccupant|
        rule_request(MemberRule::Recall, Set::empty(), living_channel, m);
    lemma_rule_addressed(MemberRule::Recall, Set::empty(), living_channel);
    let all = living + dead;
    assert(distinct_users(living)) by {
        assert forall|i: int, j: int| 0 <= i < j < living.len() implies #[trigger] living[i].user_id
            != #[trigger] living[j].user_id by {
            assert(all[i] == living[i] && all[j] == living[j]);
        }
    }
    assert(distinct_users(dead)) by {
        assert forall|i: int, j: int| 0 <= i < j < dead.len() implies #[trigger] dead[i].user_id
            != #[trigger] dead[j].user_id by {
            assert(all[living.len() + i] == dead[i] && all[living.len() + j] == dead[j]);
        }
    }
    assert forall|k: int|
        0 <= k < living.len() && match_of(aliases, players, living[k]) is None implies #[trigger] requests_for(
        start_meeting_updates(aliases, players, living, dead, living_channel),
        living[k].user_id,
    ) == Seq::<VoiceUpdate>::empty() by {
        let u = living[k].user_id;
        lemma_requests_for_append(plan_over(living, unmute), plan_over(dead, recall), u);
        lemma_plan_over_single(living, unmute, k);
        assert forall|i: int| 0 <= i < dead.len() implies #[trigger] dead[i].user_id != u by {
            assert(all[k] == living[k] && all[living.len() + i] == dead[i]);
        }
        lemma_plan_over_absent(dead, recall, u);
        assert(Seq::<VoiceUpdate>::empty() + Seq::<VoiceUpdate>::empty() =~= Seq::<
            VoiceUpdate,
        >::empty());
    }
    assert forall|k: int| 0 <= k < dead.len() implies #[trigger] requests_for(
        start_meeting_updates(aliases, players, living, dead, living_channel),
        dead[k].user_id,
    ) == seq![move_to(dead[k], living_channel, Some(true))] by {
        let u = dead[k].user_id;
        lemma_requests_for_append(plan_over(living, unmute), plan_over(dead, recall), u);
        lemma_plan_over_single(dead, recall, k);
        assert forall|i: int| 0 <= i < living.len() implies #[trigger] living[i].user_id != u by {
            assert(all[i] == living[i] && all[living.len() + k] == dead[k]);
        }
        lemma_plan_over_absent(living, unmute, u);
        assert(Seq::<VoiceUpdate>::empty() + requests_for(plan_over(dead, recall), u)
            =~= requests_for(plan_over(dead, recall), u));
    }
    if (forall|i: int| 0 <= i < living.len() ==> #[trigger] living[i].user_id != user) && (forall|
        i: int,
    |
        0 <= i < dead.len() ==> #[trigger] dead[i].user_id != user) {
        lemma_requests_for_append(plan_over(living, unmute), plan_over(dead, recall), user);
        lemma_plan_over_absent(living, unmute, user);
        lemma_plan_over_absent(dead, recall, user);
        assert(Seq::<VoiceUpdate>::empty() + Seq::<VoiceUpdate>::empty() =~= Seq::<
            VoiceUpdate,
        >::empty());
    }
}

/// What an "ident" command answers.
pub enum IdentReply {
    /// An owner gave `target` the in-game name `name`.
    SetFor { target: UserId, name: String },
    /// A mention was given but no in-game name after it.
    MissingName,
    /// Only owners may name another user.
    OnlyOwners,
    /// The author gave itself the in-game name `name`.
    SetOwn { name: String },
    /// No argument was given.
    MissingArgument,
}

/// The effect of an "ident" command by `author` with `args`, where `mention`
/// is the user that the first argument mentions, if any: the names before
/// and after, and the answer.
pub open spec fn ident_effect(
    aliases: Map<UserId, String>,
    owners: Set<UserId>,
    author: UserId,
    args: Seq<String>,
    mention: Option<UserId>,
    after: Map<UserId, String>,
    reply: IdentReply,
) -> bool {
    if args.len() == 0 {
        after == aliases && reply is MissingArgument
    } else {
        match mention {
            Some(t) => if !owners.contains(author) {
                after == aliases && reply is OnlyOwners
            } else if args.len() < 2 {
                after == aliases && reply is MissingName
            } else {
                &&& after == aliases.insert(t, args[1])
                &&& reply matches IdentReply::SetFor { target, name }
                &&& target == t
                &&& name@ == args[1]@
            },
            None => {
                &&& after == aliases.insert(author, args[0])
                &&& reply matches IdentReply::SetOwn { name }
                &&& name@ == args[0]@
            },
        }
    }
}

/// The user that the first of `args` mentions, if any.
pub open spec fn first_mention(args: Seq<String>) -> Option<UserId> {
    if args.len() > 0 {
        user_mention_id(args[0]@)
    } else {
        None
    }
}

/// What a "check" command answers.
pub enum MatchReport {
    /// No lobby or game is observed, so there is no roster to check against.
    NoRoster,
    /// Every member of the living channel matches a player.
    AllMatched,
    /// These members match no player.
    Unmatched(Vec<UserId>),
}

/// A command given to the service.
pub enum Command {
    /// Set an in-game name: one's own (`[name]`), or, for an owner, another
    /// user's (`[mention, name]`).
    Ident(Vec<String>),
    /// Report which members of the living channel match no player.
    Check,
    /// Shut the service down; owners only.
    Stop,
}

/// The answer to a command.
pub enum Reply {
    Ident(IdentReply),
    Check(MatchReport),
    /// `shutdown` tells whether the service is to stop.
    Stop { shutdown: bool },
}

impl Builder {
    /// Checks the configured channels and makes the service. The broadcast
    /// channel must be a text channel of a guild, the living and dead
    /// channels voice channels of one; the first fault found, in that order,
    /// refuses the start. The owners are the application's team where it has
    /// one, else its owner.
    pub fn build(
        self,
        application_id: UserId,
        owner: UserId,
        team: Option<Vec<UserId>>,
        broadcast: ChannelKind,
        living: ChannelKind,
        dead: ChannelKind,
    ) -> (r: Result<Bot, BuildError>)
        ensures
            ({
                let fb = channel_fault(self.channels.broadcast_channel, broadcast, false);
                let fl = channel_fault(self.channels.living_channel, living, true);
                let fd = channel_fault(self.channels.dead_channel, dead, true);
                &&& fb is Some ==> r == Err::<Bot, BuildError>(fb->0)
                &&& fb is None && fl is Some ==> r == Err::<Bot, BuildError>(fl->0)
                &&& fb is None && fl is None && fd is Some ==> r == Err::<Bot, BuildError>(fd->0)
                &&& fb is None && fl is None && fd is None ==> r is Ok
            }),
            r is Ok ==> {
                &&& r->Ok_0.id() == application_id
                &&& r->Ok_0.channels_spec() == self.channels
                &&& r->Ok_0.owner_set() == owners_of(
                    owner,
                    match team {
                        Some(t) => Some(t@),
                        None => None,
                    },
                )
                &&& r->Ok_0.aliases() == Map::<UserId, String>::empty()
            },
    {
        if let Some(e) = check_channel(self.channels.broadcast_channel, broadcast, false) {
            return Err(e);
        }
        if let Some(e) = check_channel(self.channels.living_channel, living, true) {
            return Err(e);
        }
        if let Some(e) = check_channel(self.channels.dead_channel, dead, true) {
            return Err(e);
        }
        let mut owners: HashSet<UserId> = HashSet::new();
        match &team {
            Some(members) => {
                let mut i: usize = 0;
                assert(members@.subrange(0, 0).to_set() =~= Set::<UserId>::empty());
                while i < members.len()
                    invariant
                        i <= members@.len(),
                        owners@ == members@.subrange(0, i as int).to_set(),
                    decreases members@.len() - i,
                {
                    proof {
                        assert(members@.subrange(0, i + 1) =~= members@.subrange(0, i as int).push(
                            members@[i as int],
                        ));
                        members@.subrange(0, i as int).lemma_push_to_set_commute(
                            members@[i as int],
                        );
                    }
                    owners.insert(members[i]);
                    i = i + 1;
                }
                assert(members@.subrange(0, members@.len() as int) =~= members@);
            },
            None => {
                owners.insert(owner);
                assert(owners@ =~= set![owner]);
            },
        }
        let player_names: HashMap<UserId, String> = HashMap::new();
        assert(player_names@ =~= Map::<UserId, String>::empty());
        Ok(Bot { bot_id: application_id, owners, channels: self.channels, player_names })
    }
}

impl Bot {
    /// The service's settings from its configuration, before its channels
    /// are checked.
    pub fn builder(config: &Config) -> (r: Builder)
        ensures
            r.channels == (Channels {
                broadcast_channel: config.broadcast_channel,
                living_channel: config.living_channel,
                dead_channel: config.dead_channel,
                spectator_role: config.spectator_role,
            }),
    {
        Builder {
            channels: Channels {
                broadcast_channel: config.broadcast_channel,
                living_channel: config.living_channel,
                dead_channel: config.dead_channel,
                spectator_role: config.spectator_role,
            },
        }
    }

    /// The service's own user id.
    pub closed spec fn id(&self) -> UserId {
        self.bot_id
    }

    pub closed spec fn owner_set(&self) -> Set<UserId> {
        self.owners@
    }

    pub closed spec fn channels_spec(&self) -> Channels {
        self.channels
    }

    /// The in-game names that members have been given.
    pub closed spec fn aliases(&self) -> Map<UserId, String> {
        self.player_names@
    }

    pub fn bot_id(&self) -> (r: UserId)
        ensures
            r == self.id(),
    {
        self.bot_id
    }

    pub fn channels(&self) -> (r: Channels)
        ensures
            r == self.channels_spec(),
    {
        self.channels
    }

    pub fn is_owner(&self, user: UserId) -> (r: bool)
        ensures
            r == self.owner_set().contains(user),
    {
        self.owners.contains(&user)
    }

    /// Keeps the members of a voice channel that take part in the round.
    pub fn get_members_in_channel(&self, occupants: Vec<VoiceOccupant>) -> (r: Vec<VoiceOccupant>)
        ensures
            r@ == participants(occupants@, self.channels_spec().spectator_role),
    {
        present_members(occupants, self.channels.spectator_role)
    }

    /// Matches each member to the player it is, going by the observed
    /// roster; with no roster observed there is nothing to match against.
    pub fn match_members_to_players(&self, members: &Vec<VoiceOccupant>, observed: &Option<State>) -> (r:
        Option<Vec<Option<Player>>>)
        ensures
            r is Some == roster(*observed) is Some,
            r is Some ==> {
                &&& r->0@.len() == members@.len()
                &&& forall|i: int|
                    0 <= i < members@.len() ==> #[trigger] r->0@[i] == match_of(
                        self.aliases(),
                        roster(*observed)->0,
                        members@[i],
                    )
            },
    {
        match roster_of(observed) {
            Some(players) => Some(match_players(members, players, &self.player_names)),
            None => None,
        }
    }

    /// Starts a meeting, going by the observed roster.
    pub fn start_meeting(&self, living: Vec<VoiceOccupant>, dead: Vec<VoiceOccupant>, observed: &Option<
        State,
    >) -> (r: Option<Vec<VoiceUpdate>>)
        ensures
            r is Some == roster(*observed) is Some,
            r is Some ==> r->0@ == start_meeting_updates(
                self.aliases(),
                roster(*observed)->0,
                participants(living@, self.channels_spec().spectator_role),
                participants(dead@, self.channels_spec().spectator_role),
                self.channels_spec().living_channel,
            ),
    {
        let players = match roster_of(observed) {
            Some(p) => p,
            None => return None,
        };
        let living_members = self.get_members_in_channel(living);
        let dead_members = self.get_members_in_channel(dead);
        let mut updates = plan_by_roster(
            &living_members,
            RosterRule::Unmute,
            players,
            &self.player_names,
            self.channels.living_channel,
        );
        let nobody: HashSet<UserId> = HashSet::new();
        let mut recalls = plan_members(
            &dead_members,
            MemberRule::Recall,
            &nobody,
            self.channels.living_channel,
        );
        assert(nobody@ =~= Set::<UserId>::empty());
        updates.append(&mut recalls);
        Some(updates)
    }

    /// Mutes the members of the living channel matched to living players and
    /// sends those matched to dead ones to the dead channel, unmuted; going
    /// by the observed roster.
    pub fn mute_players(&self, living: Vec<VoiceOccupant>, observed: &Option<State>) -> (r: Option<
        Vec<VoiceUpdate>,
    >)
        ensures
            r is Some == roster(*observed) is Some,
            r is Some ==> r->0@ == roster_plan(
                RosterRule::Remute,
                participants(living@, self.channels_spec().spectator_role),
                self.aliases(),
                roster(*observed)->0,
                self.channels_spec().dead_channel,
            ),
    {
        let players = match roster_of(observed) {
            Some(p) => p,
            None => return None,
        };
        let members = self.get_members_in_channel(living);
        Some(
            plan_by_roster(
                &members,
                RosterRule::Remute,
                players,
                &self.player_names,
                self.channels.dead_channel,
            ),
        )
    }

    /// Starts the round: the first muting.
    pub fn start_game(&self, living: Vec<VoiceOccupant>, observed: &Option<State>) -> (r: Option<
        Vec<VoiceUpdate>,
    >)
        ensures
            r is Some == roster(*observed) is Some,
            r is Some ==> r->0@ == roster_plan(
                RosterRule::Remute,
                participants(living@, self.channels_spec().spectator_role),
                self.aliases(),
                roster(*observed)->0,
                self.channels_spec().dead_channel,
            ),
    {
        self.mute_players(living, observed)
    }

    /// Ends the round: everyone in the living channel is unmuted, everyone
    /// in the dead channel brought back to it.
    pub fn end_game(&self, living: Vec<VoiceOccupant>, dead: Vec<VoiceOccupant>) -> (r: Vec<
        VoiceUpdate,
    >)
        ensures
            r@ == end_game_updates(
                participants(living@, self.channels_spec().spectator_role),
                participants(dead@, self.channels_spec().spectator_role),
                self.channels_spec().living_channel,
            ),
    {
        let living_members = self.get_members_in_channel(living);
        let dead_members = self.get_members_in_channel(dead);
        let nobody: HashSet<UserId> = HashSet::new();
        let mut updates = plan_members(
            &living_members,
            MemberRule::Release,
            &nobody,
            self.channels.living_channel,
        );
        let mut comebacks = plan_members(
            &dead_members,
            MemberRule::Return,
            &nobody,
            self.channels.living_channel,
        );
        assert(nobody@ =~= Set::<UserId>::empty());
        updates.append(&mut comebacks);
        updates
    }

    /// Ends a meeting, once the observed state has settled: where the round
    /// is over the phase becomes `GameOver` and the round is ended,
    /// otherwise the phase becomes `InGame` and the players are muted again.
    pub fn end_meeting(
        &self,
        bot_state: &mut BotState,
        living: Vec<VoiceOccupant>,
        dead: Vec<VoiceOccupant>,
        observed: &Option<State>,
    ) -> (r: Vec<VoiceUpdate>)
        ensures
            *final(bot_state) == phase_after_meeting(*observed),
            over_after_meeting(*observed) ==> r@ == end_game_updates(
                participants(living@, self.channels_spec().spectator_role),
                participants(dead@, self.channels_spec().spectator_role),
                self.channels_spec().living_channel,
            ),
            !over_after_meeting(*observed) ==> roster(*observed) is Some && r@ == roster_plan(
                RosterRule::Remute,
                participants(living@, self.channels_spec().spectator_role),
                self.aliases(),
                roster(*observed)->0,
                self.channels_spec().dead_channel,
            ),
    {
        if is_over_after_meeting(observed) {
            *bot_state = BotState::GameOver;
            return self.end_game(living, dead);
        }
        *bot_state = BotState::InGame;
        match self.mute_players(living, observed) {
            Some(updates) => updates,
            None => Vec::new(),
        }
    }

    /// Summarises the outcomes of a batch of requests. Successes stay
    /// applied; where any request failed, the broadcast channel is notified
    /// once.
    pub fn batch<O, E>(&self, results: &Vec<Result<O, E>>) -> (r: BatchReport)
        ensures
            r.applied@ == outcome_indices(results@, true),
            r.failed@ == outcome_indices(results@, false),
            r.failed@.len() == failure_count(results@),
            r.applied@.len() == results@.len() - failure_count(results@),
            r.notify == (if r.failed@.len() > 0 {
                Some(self.channels_spec().broadcast_channel)
            } else {
                None
            }),
    {
        let (applied, failed) = split_outcomes(results);
        proof {
            lemma_outcomes_partition(results@);
        }
        let notify = if failed.len() > 0 {
            Some(self.channels.broadcast_channel)
        } else {
            None
        };
        BatchReport { applied, failed, notify }
    }

    /// Carries out an "ident" command whose first argument mentions
    /// `mention`, if any.
    pub fn ident_parsed(&mut self, author: UserId, arguments: Vec<String>, mention: Option<UserId>) -> (r:
        IdentReply)
        ensures
            final(self).id() == old(self).id(),
            final(self).owner_set() == old(self).owner_set(),
            final(self).channels_spec() == old(self).channels_spec(),
            ident_effect(
                old(self).aliases(),
                old(self).owner_set(),
                author,
                arguments@,
                mention,
                final(self).aliases(),
                r,
            ),
    {
        if arguments.len() == 0 {
            return IdentReply::MissingArgument;
        }
        match mention {
            Some(target) => {
                if !self.owners.contains(&author) {
                    return IdentReply::OnlyOwners;
                }
                if arguments.len() < 2 {
                    return IdentReply::MissingName;
                }
                let name = arguments[1].clone();
                self.player_names.insert(target, arguments[1].clone());
                IdentReply::SetFor { target, name }
            },
            None => {
                let name = arguments[0].clone();
                self.player_names.insert(author, arguments[0].clone());
                IdentReply::SetOwn { name }
            },
        }
    }

    /// Carries out an "ident" command: `[name]` gives the author an in-game
    /// name; `[mention, name]` lets an owner give one to the mentioned user.
    pub fn ident_player(&mut self, author: UserId, arguments: Vec<String>) -> (r: IdentReply)
        ensures
            final(self).id() == old(self).id(),
            final(self).owner_set() == old(self).owner_set(),
            final(self).channels_spec() == old(self).channels_spec(),
            ident_effect(
                old(self).aliases(),
                old(self).owner_set(),
                author,
                arguments@,
                first_mention(arguments@),
                final(self).aliases(),
                r,
            ),
    {
        let mention = if arguments.len() > 0 {
            parse_user_mention(arguments[0].as_str())
        } else {
            None
        };
        self.ident_parsed(author, arguments, mention)
    }

    /// Reports which members of the living channel match no player of the
    /// observed roster.
    pub fn check_matching(&self, living: Vec<VoiceOccupant>, observed: &Option<State>) -> (r:
        MatchReport)
        ensures
            roster(*observed) is None ==> r is NoRoster,
            roster(*observed) is Some ==> {
                let missing = unmatched_users(
                    self.aliases(),
                    roster(*observed)->0,
                    participants(living@, self.channels_spec().spectator_role),
                );
                &&& missing.len() == 0 ==> r is AllMatched
                &&& missing.len() > 0 ==> (r matches MatchReport::Unmatched(v) && v@ == missing)
            },
    {
        let players = match roster_of(observed) {
            Some(p) => p,
            None => return MatchReport::NoRoster,
        };
        let members = self.get_members_in_channel(living);
        let missing = unmatched_members(&members, players, &self.player_names);
        if missing.len() == 0 {
            MatchReport::AllMatched
        } else {
            MatchReport::Unmatched(missing)
        }
    }

    /// Answers a command by `author`.
    pub fn handle_command(
        &mut self,
        author: UserId,
        command: Command,
        living: Vec<VoiceOccupant>,
        observed: &Option<State>,
    ) -> (r: Reply)
        ensures
            final(self).id() == old(self).id(),
            final(self).owner_set() == old(self).owner_set(),
            final(self).channels_spec() == old(self).channels_spec(),
            match command {
                Command::Ident(args) => r matches Reply::Ident(ir) && ident_effect(
                    old(self).aliases(),
                    old(self).owner_set(),
                    author,
                    args@,
                    first_mention(args@),
                    final(self).aliases(),
                    ir,
                ),
                Command::Check => {
                    &&& final(self).aliases() == old(self).aliases()
                    &&& r matches Reply::Check(report)
                    &&& roster(*observed) is None ==> report is NoRoster
                    &&& roster(*observed) is Some ==> {
                        let missing = unmatched_users(
                            old(self).aliases(),
                            roster(*observed)->0,
                            participants(living@, old(self).channels_spec().spectator_role),
                        );
                        &&& missing.len() == 0 ==> report is AllMatched
                        &&& missing.len() > 0 ==> (report matches MatchReport::Unmatched(v) && v@
                            == missing)
                    }
                },
                Command::Stop => {
                    &&& final(self).aliases() == old(self).aliases()
                    &&& r == (Reply::Stop { shutdown: old(self).owner_set().contains(author) })
                },
            },
    {
        match command {
            Command::Ident(args) => Reply::Ident(self.ident_player(author, args)),
            Command::Check => Reply::Check(self.check_matching(living, observed)),
            Command::Stop => Reply::Stop { shutdown: self.is_owner(author) },
        }
    }
}

} // verus!
