//! The record of the running round and the orchestration routines that read
//! it: who is dead, who controls the round, and what to ask of the chat
//! platform at each step.

use crate::batch::{
    addressed_to_member, distinct_users, failure_count, lemma_outcomes_partition,
    lemma_plan_over_absent, lemma_plan_over_single, lemma_plan_over_step, lemma_requests_for_append,
    move_to, outcome_indices, plan_over, requests_for, set_mute, split_outcomes, BatchReport,
    VoiceUpdate,
};
use crate::config::Config;
use crate::matcher::{participants, present_members};
use crate::model::{ChannelId, GuildId, MessageId, UserId, VoiceOccupant};
use std::collections::HashSet;
use vstd::prelude::*;

verus! {

broadcast use vstd::std_specs::hash::group_hash_axioms;

/// The running round: who has died, where its control message stands, who
/// controls it, and whether a meeting is on.
pub struct Game {
    pub dead: HashSet<UserId>,
    pub ctrl_channel: ChannelId,
    pub ctrl_msg: MessageId,
    pub ctrl_user: UserId,
    pub guild_id: GuildId,
    pub meeting_in_progress: bool,
}

/// Why the record of a round could not be changed.
#[derive(Clone, Copy, Debug, PartialEq, Eq, Structural)]
pub enum StoreError {
    /// A round is already running.
    AlreadyInProgress,
}

/// What ending a round asks of the chat platform: remove the round's control
/// message, then apply `updates`.
pub struct EndGamePlan {
    pub control_channel: ChannelId,
    pub control_message: MessageId,
    pub updates: Vec<VoiceUpdate>,
}

/// The service's handle on the round: its settings, the owners, who may
/// always drive a round, and the record of the running round, if any.
pub struct Context {
    config: Config,
    owners: HashSet<UserId>,
    game: Option<Game>,
}

/// What the record of the running round holds, as values.
pub struct GameView {
    pub dead: Set<UserId>,
    pub ctrl_channel: ChannelId,
    pub ctrl_msg: MessageId,
    pub ctrl_user: UserId,
    pub guild_id: GuildId,
    pub meeting_in_progress: bool,
}

impl View for Game {
    type V = GameView;

    open spec fn view(&self) -> GameView {
        GameView {
            dead: self.dead@,
            ctrl_channel: self.ctrl_channel,
            ctrl_msg: self.ctrl_msg,
            ctrl_user: self.ctrl_user,
            guild_id: self.guild_id,
            meeting_in_progress: self.meeting_in_progress,
        }
    }
}

/// The rules by which the routines of a round give each member a request.
#[derive(Clone, Copy, Debug, PartialEq, Eq, Structural)]
pub enum MemberRule {
    /// End of a meeting, in the living channel: a living member is muted, a
    /// dead one is sent to the dead channel and unmuted.
    Remute,
    /// Start of a meeting, in the living channel: a living member is
    /// unmuted; a dead one is left alone.
    Unmute,
    /// Start of a meeting, in the dead channel: every member is brought to
    /// the living channel, muted, to follow the discussion.
    Recall,
    /// End of the round, in the living channel: every member is unmuted.
    Release,
    /// End of the round, in the dead channel: every member is brought back
    /// to the living channel.
    Return,
}

/// The request that `rule` gives member `m`, where `dead` is who has died
/// and `channel` the channel that the rule sends members to.
pub open spec fn rule_request(rule: MemberRule, dead: Set<UserId>, channel: ChannelId, m: VoiceOccupant) -> Option<
    VoiceUpdate,
> {
    match rule {
        MemberRule::Remute => if dead.contains(m.user_id) {
            Some(move_to(m, channel, Some(false)))
        } else {
            Some(set_mute(m, true))
        },
        MemberRule::Unmute => if dead.contains(m.user_id) {
            None
        } else {
            Some(set_mute(m, false))
        },
        MemberRule::Recall => Some(move_to(m, channel, Some(true))),
        MemberRule::Release => Some(set_mute(m, false)),
        MemberRule::Return => Some(move_to(m, channel, None)),
    }
}

/// The plan that `rule` gives the members `ms`.
pub open spec fn rule_plan(rule: MemberRule, ms: Seq<VoiceOccupant>, dead: Set<UserId>, channel: ChannelId) -> Seq<
    VoiceUpdate,
> {
    plan_over(ms, |m: VoiceOccupant| rule_request(rule, dead, channel, m))
}

/// The requests that end a round: everyone in the living channel is
/// unmuted, everyone in the dead channel is brought back to it.
pub open spec fn end_game_updates(living: Seq<VoiceOccupant>, dead: Seq<VoiceOccupant>, living_channel: ChannelId) -> Seq<
    VoiceUpdate,
> {
    rule_plan(MemberRule::Release, living, Set::empty(), living_channel) + rule_plan(
        MemberRule::Return,
        dead,
        Set::empty(),
        living_channel,
    )
}

/// The requests that ending the round `round` makes: none where no round
/// runs.
pub open spec fn end_game_requests(
    round: Option<GameView>,
    living: Seq<VoiceOccupant>,
    dead: Seq<VoiceOccupant>,
    living_channel: ChannelId,
) -> Seq<VoiceUpdate> {
    match round {
        Some(_) => end_game_updates(living, dead, living_channel),
        None => Seq::empty(),
    }
}

/// The requests that an end-of-round plan holds.
pub open spec fn planned_updates(plan: Option<EndGamePlan>) -> Seq<VoiceUpdate> {
    match plan {
        Some(p) => p.updates@,
        None => Seq::empty(),
    }
}

/// Ending a round twice in a row: `Context::end_game` leaves no round
/// behind, and ending where no round runs asks for no change of anyone's
/// voice state, whoever is in the channels then.
pub proof fn lemma_end_game_twice(
    living: Seq<VoiceOccupant>,
    dead: Seq<VoiceOccupant>,
    living_channel: ChannelId,
)
    ensures
        end_game_requests(None, living, dead, living_channel) == Seq::<VoiceUpdate>::empty(),
{
}

/// The requests that start a meeting: the living members of the living
/// channel are unmuted, the members of the dead channel are brought to it
/// muted.
pub open spec fn meeting_updates(
    living: Seq<VoiceOccupant>,
    dead: Seq<VoiceOccupant>,
    dead_users: Set<UserId>,
    living_channel: ChannelId,
) -> Seq<VoiceUpdate> {
    rule_plan(MemberRule::Unmute, living, dead_users, living_channel) + rule_plan(
        MemberRule::Recall,
        dead,
        dead_users,
        living_channel,
    )
}

/// Gives each member of `members` the request of `rule`, in order.
pub(crate) fn plan_members(members: &Vec<VoiceOccupant>, rule: MemberRule, dead: &HashSet<UserId>, channel: ChannelId) -> (r: Vec<
    VoiceUpdate,
>)
    ensures
        r@ == rule_plan(rule, members@, dead@, channel),
{
    let ghost req = |m: VoiceOccupant| rule_request(rule, dead@, channel, m);
    let mut out: Vec<VoiceUpdate> = Vec::new();
    let mut i: usize = 0;
    while i < members.len()
        invariant
            i <= members@.len(),
            req == (|m: VoiceOccupant| rule_request(rule, dead@, channel, m)),
            out@ == plan_over(members@.subrange(0, i as int), req),
        decreases members@.len() - i,
    {
        proof {
            lemma_plan_over_step(members@, i as int, req);
        }
        let m = &members[i];
        let (mute, to): (Option<bool>, Option<ChannelId>) = match rule {
            MemberRule::Remute => if dead.contains(&m.user_id) {
                (Some(false), Some(channel))
            } else {
                (Some(true), None)
            },
            MemberRule::Unmute => if dead.contains(&m.user_id) {
                (None, None)
            } else {
                (Some(false), None)
            },
            MemberRule::Recall => (Some(true), Some(channel)),
            MemberRule::Release => (Some(false), None),
            MemberRule::Return => (None, Some(channel)),
        };
        if mute.is_some() || to.is_some() {
            out.push(VoiceUpdate { guild_id: m.guild_id, user_id: m.user_id, mute, channel: to });
        }
        i = i + 1;
    }
    assert(members@.subrange(0, members@.len() as int) =~= members@);
    out
}

/// The round after `target` has been marked dead in it.
pub open spec fn with_dead(round: Option<GameView>, target: UserId) -> Option<GameView> {
    match round {
        Some(g) => Some(GameView { dead: g.dead.insert(target), ..g }),
        None => None,
    }
}

/// The request that a new death calls for: a player who dies while a
/// meeting is on is muted at once.
pub open spec fn death_update(round: Option<GameView>, target: UserId) -> Option<VoiceUpdate> {
    match round {
        Some(g) => if !g.dead.contains(target) && g.meeting_in_progress {
            Some(VoiceUpdate { guild_id: g.guild_id, user_id: target, mute: Some(true), channel: None })
        } else {
            None
        },
        None => None,
    }
}

pub(crate) proof fn lemma_rule_addressed(rule: MemberRule, dead: Set<UserId>, channel: ChannelId)
    ensures
        addressed_to_member(|m: VoiceOccupant| rule_request(rule, dead, channel, m)),
{
}

/// Starting a meeting asks exactly one request of each member who takes
/// part and is alive in the living channel, or waits in the dead channel:
/// the first is unmuted where it stands, the second brought to the living
/// channel, muted. A member marked dead in the living channel is asked
/// nothing.
pub proof fn lemma_meeting_one_request_each(
    living: Seq<VoiceOccupant>,
    dead: Seq<VoiceOccupant>,
    dead_users: Set<UserId>,
    living_channel: ChannelId,
)
    requires
        distinct_users(living + dead),
    ensures
        forall|k: int|
            0 <= k < living.len() ==> #[trigger] requests_for(
                meeting_updates(living, dead, dead_users, living_channel),
                living[k].user_id,
            ) == if dead_users.contains(living[k].user_id) {
                Seq::<VoiceUpdate>::empty()
            } else {
                seq![set_mute(living[k], false)]
            },
        forall|k: int|
            0 <= k < dead.len() ==> #[trigger] requests_for(
                meeting_updates(living, dead, dead_users, living_channel),
                dead[k].user_id,
            ) == seq![move_to(dead[k], living_channel, Some(true))],
{
    let unmute = |m: VoiceOccupant| rule_request(MemberRule::Unmute, dead_users, living_channel, m);
    let recall = |m: VoiceOccupant| rule_request(MemberRule::Recall, dead_users, living_channel, m);
    lemma_rule_addressed(MemberRule::Unmute, dead_users, living_channel);
    lemma_rule_addressed(MemberRule::Recall, dead_users, living_channel);
    let all = living + dead;
    assert(distinct_users(living)) by {
        assert forall|i: int, j: int| 0 <= i < j < living.len() implies #[trigger] living[i].user_id
            != #[trigger] living[j].user_id by {
            assert(all[i] == living[i] && all[j] == living[j]);
        }
    }
    assert(distinct_users(dead)) by {
        assert forall|i: int, j: int| 0 <= i < j < dead.len() implies #[trigger] dead[i].user_id
            != #[trigger] dead[j].user_id by {
            assert(all[living.len() + i] == dead[i] && all[living.len() + j] == dead[j]);
        }
    }
    assert forall|k: int| 0 <= k < living.len() implies #[trigger] requests_for(
        meeting_updates(living, dead, dead_users, living_channel),
        living[k].user_id,
    ) == if dead_users.contains(living[k].user_id) {
        Seq::<VoiceUpdate>::empty()
    } else {
        seq![set_mute(living[k], false)]
    } by {
        let user = living[k].user_id;
        lemma_requests_for_append(plan_over(living, unmute), plan_over(dead, recall), user);
        lemma_plan_over_single(living, unmute, k);
        assert forall|i: int| 0 <= i < dead.len() implies #[trigger] dead[i].user_id != user by {
            assert(all[k] == living[k] && all[living.len() + i] == dead[i]);
        }
        lemma_plan_over_absent(dead, recall, user);
        assert(requests_for(plan_over(living, unmute), user) + Seq::<VoiceUpdate>::empty()
            =~= requests_for(plan_over(living, unmute), user));
    }
    assert forall|k: int| 0 <= k < dead.len() implies #[trigger] requests_for(
        meeting_updates(living, dead, dead_users, living_channel),
        dead[k].user_id,
    ) == seq![move_to(dead[k], living_channel, Some(true))] by {
        let user = dead[k].user_id;
        lemma_requests_for_append(plan_over(living, unmute), plan_over(dead, recall), user);
        lemma_plan_over_single(dead, recall, k);
        assert forall|i: int| 0 <= i < living.len() implies #[trigger] living[i].user_id != user by {
            assert(all[i] == living[i] && all[living.len() + k] == dead[k]);
        }
        lemma_plan_over_absent(living, unmute, user);
        assert(Seq::<VoiceUpdate>::empty() + requests_for(plan_over(dead, recall), user)
            =~= requests_for(plan_over(dead, recall), user));
    }
}

/// Ending a meeting asks exactly one request of each member of the living
/// channel who takes part: a member marked dead is sent to the dead channel
/// and unmuted, a living one is muted where it stands.
pub proof fn lemma_remute_one_request_each(
    living: Seq<VoiceOccupant>,
    dead_users: Set<UserId>,
    dead_channel: ChannelId,
)
    requires
        distinct_users(living),
    ensures
        forall|k: int|
            0 <= k < living.len() ==> #[trigger] requests_for(
                rule_plan(MemberRule::Remute, living, dead_users, dead_channel),
                living[k].user_id,
            ) == if dead_users.contains(living[k].user_id) {
                seq![move_to(living[k], dead_channel, Some(false))]
            } else {
                seq![set_mute(living[k], true)]
            },
{
    let remute = |m: VoiceOccupant| rule_request(MemberRule::Remute, dead_users, dead_channel, m);
    lemma_rule_addressed(MemberRule::Remute, dead_users, dead_channel);
    assert forall|k: int| 0 <= k < living.len() implies #[trigger] requests_for(
        rule_plan(MemberRule::Remute, living, dead_users, dead_channel),
        living[k].user_id,
    ) == if dead_users.contains(living[k].user_id) {
        seq![move_to(living[k], dead_channel, Some(false))]
    } else {
        seq![set_mute(living[k], true)]
    } by {
        lemma_plan_over_single(living, remute, k);
    }
}

/// The answer to a "mark dead" command.
pub enum MarkDeadReply {
    /// The issuer may not drive this round.
    Rejected,
    /// No target was named.
    MissingTarget,
    /// No round is running.
    NoRound,
    /// The target is dead; `newly_dead` tells whether it was not before.
    Marked { newly_dead: bool, update: Option<VoiceUpdate> },
}

/// The two things a reaction on the control message can ask for.
#[derive(Clone, Copy, Debug, PartialEq, Eq, Structural)]
pub enum Capability {
    /// Start or end a meeting; only the round's control user may.
    ToggleMeeting,
    /// Mark the reacting user dead; anyone may.
    MarkSelfDead,
}

/// What a reaction leads to.
pub enum ReactionOutcome {
    /// The reaction is not on the control message of a running round.
    Ignored,
    /// The user may not ask for this.
    Rejected,
    /// Run the start-meeting routine.
    StartMeeting,
    /// Run the end-of-meeting routine.
    EndMeeting,
    /// The reacting user is dead; `newly_dead` tells whether it was not before.
    MarkedDead { newly_dead: bool, update: Option<VoiceUpdate> },
}

impl Context {
    /// A handle with no round running.
    pub fn new(config: Config, owners: HashSet<UserId>) -> (r: Context)
        ensures
            r.settings() == config,
            r.owner_set() == owners@,
            r.round() is None,
    {
        Context { config, owners, game: None }
    }

    /// The settings the handle was made with.
    pub closed spec fn settings(&self) -> Config {
        self.config
    }

    /// The owners, who may drive any round.
    pub closed spec fn owner_set(&self) -> Set<UserId> {
        self.owners@
    }

    /// The record of the running round, if a round is running.
    pub closed spec fn round(&self) -> Option<GameView> {
        match self.game {
            Some(g) => Some(g@),
            None => None,
        }
    }

    /// The users marked dead in the running round.
    pub open spec fn dead_set(&self) -> Set<UserId> {
        match self.round() {
            Some(g) => g.dead,
            None => Set::empty(),
        }
    }

    /// Whether `user` may drive the round: an owner, or the round's control
    /// user.
    pub open spec fn in_control(&self, user: UserId) -> bool {
        self.owner_set().contains(user) || (self.round() is Some && self.round()->0.ctrl_user
            == user)
    }

    pub fn config(&self) -> (r: &Config)
        ensures
            *r == self.settings(),
    {
        &self.config
    }

    pub fn is_in_control(&self, user_id: UserId) -> (r: bool)
        ensures
            r == self.in_control(user_id),
    {
        if self.owners.contains(&user_id) {
            return true;
        }
        match &self.game {
            Some(g) => g.ctrl_user == user_id,
            None => false,
        }
    }

    /// Whether `message_id` is the control message of the running round.
    pub fn is_reacting_to_control(&self, message_id: MessageId) -> (r: bool)
        ensures
            r == (self.round() is Some && self.round()->0.ctrl_msg == message_id),
    {
        match &self.game {
            Some(g) => g.ctrl_msg == message_id,
            None => false,
        }
    }

    /// The record of the running round, as it stands.
    pub fn read_game(&self) -> (r: Option<&Game>)
        ensures
            match r {
                Some(g) => self.round() == Some(g@),
                None => self.round() is None,
            },
    {
        self.game.as_ref()
    }

    pub fn is_game_in_progress(&self) -> (r: bool)
        ensures
            r == self.round() is Some,
    {
        self.game.is_some()
    }

    /// The channel where the running round reports, if a round is running.
    pub fn broadcast(&self) -> (r: Option<ChannelId>)
        ensures
            r == (match self.round() {
                Some(g) => Some(g.ctrl_channel),
                None => None,
            }),
    {
        match &self.game {
            Some(g) => Some(g.ctrl_channel),
            None => None,
        }
    }

    /// Starts a round controlled by `ctrl_user` from the message `ctrl_msg`:
    /// nobody is dead and no meeting is on. Fails, changing nothing, while a
    /// round is running.
    pub fn start_game(
        &mut self,
        ctrl_channel: ChannelId,
        ctrl_msg: MessageId,
        ctrl_user: UserId,
        guild_id: GuildId,
    ) -> (r: Result<(), StoreError>)
        ensures
            final(self).settings() == old(self).settings(),
            final(self).owner_set() == old(self).owner_set(),
            old(self).round() is Some ==> r == Err::<(), StoreError>(StoreError::AlreadyInProgress)
                && final(self).round() == old(self).round(),
            old(self).round() is None ==> r is Ok && final(self).round() == Some(
                GameView {
                    dead: Set::empty(),
                    ctrl_channel,
                    ctrl_msg,
                    ctrl_user,
                    guild_id,
                    meeting_in_progress: false,
                },
            ),
    {
        if self.game.is_some() {
            return Err(StoreError::AlreadyInProgress);
        }
        let dead: HashSet<UserId> = HashSet::new();
        self.game = Some(
            Game { dead, ctrl_channel, ctrl_msg, ctrl_user, guild_id, meeting_in_progress: false },
        );
        assert(self.round()->0.dead =~= Set::<UserId>::empty());
        Ok(())
    }

    /// Marks `target` dead in the running round. Returns whether `target`
    /// was not dead before; with no round running, nothing changes.
    pub fn mark_dead(&mut self, target: UserId) -> (r: bool)
        ensures
            final(self).settings() == old(self).settings(),
            final(self).owner_set() == old(self).owner_set(),
            final(self).round() == with_dead(old(self).round(), target),
            r == (old(self).round() is Some && !old(self).round()->0.dead.contains(target)),
    {
        match &mut self.game {
            Some(g) => g.dead.insert(target),
            None => false,
        }
    }

    /// Marks `target` dead, and gives the request that mutes it at once
    /// where it died during a meeting.
    pub fn make_dead(&mut self, target: UserId) -> (r: Option<VoiceUpdate>)
        ensures
            final(self).settings() == old(self).settings(),
            final(self).owner_set() == old(self).owner_set(),
            final(self).round() == with_dead(old(self).round(), target),
            r == death_update(old(self).round(), target),
    {
        let newly_dead = self.mark_dead(target);
        match &self.game {
            Some(g) => if newly_dead && g.meeting_in_progress {
                Some(VoiceUpdate { guild_id: g.guild_id, user_id: target, mute: Some(true), channel: None })
            } else {
                None
            },
            None => None,
        }
    }

    /// Records whether a meeting is on. Returns whether a round is running;
    /// with none, nothing changes.
    pub fn set_meeting_in_progress(&mut self, on: bool) -> (r: bool)
        ensures
            final(self).settings() == old(self).settings(),
            final(self).owner_set() == old(self).owner_set(),
            r == old(self).round() is Some,
            final(self).round() == (match old(self).round() {
                Some(g) => Some(GameView { meeting_in_progress: on, ..g }),
                None => None,
            }),
    {
        match &mut self.game {
            Some(g) => {
                g.meeting_in_progress = on;
                true
            },
            None => false,
        }
    }

    /// Keeps the members of a voice channel that take part in the round.
    pub fn get_members_in_channel(&self, occupants: Vec<VoiceOccupant>) -> (r: Vec<VoiceOccupant>)
        ensures
            r@ == participants(occupants@, self.settings().spectator_role),
    {
        present_members(occupants, self.config.spectator_role)
    }

    /// Ends a meeting: mutes the living members of the living channel and
    /// sends the dead ones to the dead channel, unmuted. The round records
    /// that no meeting is on.
    pub fn mute_players(&mut self, living: Vec<VoiceOccupant>) -> (r: Vec<VoiceUpdate>)
        requires
            old(self).round() is Some,
        ensures
            final(self).settings() == old(self).settings(),
            final(self).owner_set() == old(self).owner_set(),
            final(self).round() == Some(
                GameView { meeting_in_progress: false, ..old(self).round()->0 },
            ),
            r@ == rule_plan(
                MemberRule::Remute,
                participants(living@, old(self).settings().spectator_role),
                old(self).dead_set(),
                old(self).settings().dead_channel,
            ),
    {
        let members = self.get_members_in_channel(living);
        let updates = {
            let game = self.game.as_ref().unwrap();
            plan_members(&members, MemberRule::Remute, &game.dead, self.config.dead_channel)
        };
        self.set_meeting_in_progress(false);
        updates
    }

    /// Starts a meeting: unmutes the living members of the living channel
    /// and brings the members of the dead channel to it, muted. The round
    /// records that a meeting is on.
    pub fn emergency_meeting(&mut self, living: Vec<VoiceOccupant>, dead: Vec<VoiceOccupant>) -> (r:
        Vec<VoiceUpdate>)
        requires
            old(self).round() is Some,
        ensures
            final(self).settings() == old(self).settings(),
            final(self).owner_set() == old(self).owner_set(),
            final(self).round() == Some(
                GameView { meeting_in_progress: true, ..old(self).round()->0 },
            ),
            r@ == meeting_updates(
                participants(living@, old(self).settings().spectator_role),
                participants(dead@, old(self).settings().spectator_role),
                old(self).dead_set(),
                old(self).settings().living_channel,
            ),
    {
        let living_members = self.get_members_in_channel(living);
        let dead_members = self.get_members_in_channel(dead);
        let updates = {
            let game = self.game.as_ref().unwrap();
            let mut updates = plan_members(
                &living_members,
                MemberRule::Unmute,
                &game.dead,
                self.config.living_channel,
            );
            let mut recalls = plan_members(
                &dead_members,
                MemberRule::Recall,
                &game.dead,
                self.config.living_channel,
            );
            updates.append(&mut recalls);
            updates
        };
        self.set_meeting_in_progress(true);
        updates
    }

    /// Ends the running round: clears its record, and gives its control
    /// message to remove and the requests that unmute everyone and bring the
    /// dead channel back. With no round running there is nothing to do.
    pub fn end_game(&mut self, living: Vec<VoiceOccupant>, dead: Vec<VoiceOccupant>) -> (r: Option<
        EndGamePlan,
    >)
        ensures
            final(self).settings() == old(self).settings(),
            final(self).owner_set() == old(self).owner_set(),
            final(self).round() is None,
            planned_updates(r) == end_game_requests(
                old(self).round(),
                participants(living@, old(self).settings().spectator_role),
                participants(dead@, old(self).settings().spectator_role),
                old(self).settings().living_channel,
            ),
            r is Some == old(self).round() is Some,
            r is Some ==> {
                &&& r->0.control_channel == old(self).round()->0.ctrl_channel
                &&& r->0.control_message == old(self).round()->0.ctrl_msg
                &&& r->0.updates@ == end_game_updates(
                    participants(living@, old(self).settings().spectator_role),
                    participants(dead@, old(self).settings().spectator_role),
                    old(self).settings().living_channel,
                )
            },
    {
        let game = match self.game.take() {
            Some(g) => g,
            None => return None,
        };
        let living_members = self.get_members_in_channel(living);
        let dead_members = self.get_members_in_channel(dead);
        let nobody: HashSet<UserId> = HashSet::new();
        let mut updates = plan_members(
            &living_members,
            MemberRule::Release,
            &nobody,
            self.config.living_channel,
        );
        let mut comebacks = plan_members(
            &dead_members,
            MemberRule::Return,
            &nobody,
            self.config.living_channel,
        );
        updates.append(&mut comebacks);
        assert(nobody@ =~= Set::<UserId>::empty());
        Some(
            EndGamePlan {
                control_channel: game.ctrl_channel,
                control_message: game.ctrl_msg,
                updates,
            },
        )
    }

    /// Summarises the outcomes of a batch of requests. Successes stay
    /// applied; where any request failed, one notification goes to the
    /// running round's control channel, or, with no round running (as after
    /// the round has ended), to the broadcast channel.
    pub fn batch<O, E>(&self, results: &Vec<Result<O, E>>) -> (r: BatchReport)
        ensures
            r.applied@ == outcome_indices(results@, true),
            r.failed@ == outcome_indices(results@, false),
            r.failed@.len() == failure_count(results@),
            r.applied@.len() == results@.len() - failure_count(results@),
            r.notify == (if r.failed@.len() > 0 {
                Some(
                    match self.round() {
                        Some(g) => g.ctrl_channel,
                        None => self.settings().broadcast_channel,
                    },
                )
            } else {
                None
            }),
    {
        let (applied, failed) = split_outcomes(results);
        proof {
            lemma_outcomes_partition(results@);
        }
        let notify = if failed.len() > 0 {
            match self.broadcast() {
                Some(channel) => Some(channel),
                None => Some(self.config.broadcast_channel),
            }
        } else {
            None
        };
        BatchReport { applied, failed, notify }
    }

    /// Handles a "mark dead" command from `issuer`. Only the round's control
    /// user and the owners may give it; anyone else is rejected and nothing
    /// changes.
    pub fn mark_dead_command(&mut self, issuer: UserId, target: Option<UserId>) -> (r: MarkDeadReply)
        ensures
            final(self).settings() == old(self).settings(),
            final(self).owner_set() == old(self).owner_set(),
            !old(self).in_control(issuer) ==> r is Rejected && final(self).round() == old(self).round(),
            old(self).in_control(issuer) && target is None ==> r is MissingTarget && final(self).round()
                == old(self).round(),
            old(self).in_control(issuer) && target is Some && old(self).round() is None ==> r is NoRound
                && final(self).round() == old(self).round(),
            old(self).in_control(issuer) && target is Some && old(self).round() is Some ==> {
                &&& final(self).round() == with_dead(old(self).round(), target->0)
                &&& r == (MarkDeadReply::Marked {
                    newly_dead: !old(self).round()->0.dead.contains(target->0),
                    update: death_update(old(self).round(), target->0),
                })
            },
    {
        if !self.is_in_control(issuer) {
            return MarkDeadReply::Rejected;
        }
        let t = match target {
            Some(t) => t,
            None => return MarkDeadReply::MissingTarget,
        };
        if !self.is_game_in_progress() {
            return MarkDeadReply::NoRound;
        }
        let newly_dead = match &self.game {
            Some(g) => !g.dead.contains(&t),
            None => false,
        };
        let update = self.make_dead(t);
        MarkDeadReply::Marked { newly_dead, update }
    }

    /// Handles a reaction by `user` on message `message_id`. Only a reaction
    /// on the running round's control message counts; toggling the meeting
    /// is for the round's control user alone, marking oneself dead is open
    /// to all.
    pub fn on_reaction(&mut self, user: UserId, message_id: MessageId, capability: Capability) -> (r:
        ReactionOutcome)
        ensures
            final(self).settings() == old(self).settings(),
            final(self).owner_set() == old(self).owner_set(),
            !(old(self).round() is Some && old(self).round()->0.ctrl_msg == message_id) ==> r is Ignored
                && final(self).round() == old(self).round(),
            old(self).round() is Some && old(self).round()->0.ctrl_msg == message_id ==> match capability {
                Capability::ToggleMeeting => {
                    &&& final(self).round() == old(self).round()
                    &&& if old(self).round()->0.ctrl_user != user {
                        r is Rejected
                    } else if old(self).round()->0.meeting_in_progress {
                        r is EndMeeting
                    } else {
                        r is StartMeeting
                    }
                },
                Capability::MarkSelfDead => {
                    &&& final(self).round() == with_dead(old(self).round(), user)
                    &&& r == (ReactionOutcome::MarkedDead {
                        newly_dead: !old(self).round()->0.dead.contains(user),
                        update: death_update(old(self).round(), user),
                    })
                },
            },
    {
        if !self.is_reacting_to_control(message_id) {
            return ReactionOutcome::Ignored;
        }
        match capability {
            Capability::ToggleMeeting => match &self.game {
                Some(g) => if g.ctrl_user != user {
                    ReactionOutcome::Rejected
                } else if g.meeting_in_progress {
                    ReactionOutcome::EndMeeting
                } else {
                    ReactionOutcome::StartMeeting
                },
                None => ReactionOutcome::Ignored,
            },
            Capability::MarkSelfDead => {
                let newly_dead = match &self.game {
                    Some(g) => !g.dead.contains(&user),
                    None => false,
                };
                let update = self.make_dead(user);
                ReactionOutcome::MarkedDead { newly_dead, update }
            },
        }
    }
}

} // verus!
