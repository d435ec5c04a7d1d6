//! The lifecycle of a round as the observed game state drives it, and the
//! rule that decides whether a round is over.

use crate::model::{MeetingState, Player, State};
use vstd::prelude::*;

verus! {

/// The phase of the round as the service sees it. `GameOver` is passed
/// through once, on the way back to `PreGame`.
#[derive(Clone, Copy, Debug, PartialEq, Eq, Structural)]
pub enum BotState {
    PreGame,
    InGame,
    InMeeting,
    GameOver,
}

/// What an observed game state says about the round.
#[derive(Clone, Copy, Debug, PartialEq, Eq, Structural)]
pub enum Observation {
    /// A meeting is on: discussion, voting or results.
    Meeting,
    /// The round is being played outside a meeting.
    Gameplay,
    /// No round runs: lobby, menu, or no game at all.
    NoRound,
}

/// Which orchestration routine a change of phase calls for.
#[derive(Clone, Copy, Debug, PartialEq, Eq, Structural)]
pub enum Transition {
    Stay,
    StartGame,
    StartMeeting,
    /// Ends the meeting; the routine itself then decides, from the roster,
    /// whether the round is over.
    EndMeeting,
    EndGame,
}

pub open spec fn observation_of(observed: Option<State>) -> Observation {
    match observed {
        Some(State::InGame { meeting, .. }) => if meeting.is_meeting_spec() {
            Observation::Meeting
        } else {
            Observation::Gameplay
        },
        _ => Observation::NoRound,
    }
}

/// Classifies an observed game state.
pub fn classify(observed: &Option<State>) -> (r: Observation)
    ensures
        r == observation_of(*observed),
{
    match observed {
        Some(State::InGame { meeting, .. }) => if meeting.is_meeting() {
            Observation::Meeting
        } else {
            Observation::Gameplay
        },
        _ => Observation::NoRound,
    }
}

/// The next phase, and the routine to call, when `obs` arrives in `phase`.
/// A phase that the observation does not change calls for nothing.
pub open spec fn step(phase: BotState, obs: Observation) -> (BotState, Transition) {
    match obs {
        Observation::Meeting => match phase {
            BotState::PreGame | BotState::InGame => (BotState::InMeeting, Transition::StartMeeting),
            _ => (phase, Transition::Stay),
        },
        Observation::Gameplay => match phase {
            BotState::InMeeting => (BotState::InMeeting, Transition::EndMeeting),
            BotState::PreGame => (BotState::InGame, Transition::StartGame),
            _ => (phase, Transition::Stay),
        },
        Observation::NoRound => match phase {
            BotState::InGame | BotState::InMeeting => (BotState::PreGame, Transition::EndGame),
            BotState::GameOver => (BotState::PreGame, Transition::Stay),
            _ => (phase, Transition::Stay),
        },
    }
}

impl BotState {
    /// Feeds one observed game state to the lifecycle.
    pub fn observe(self, observed: &Option<State>) -> (r: (BotState, Transition))
        ensures
            r == step(self, observation_of(*observed)),
    {
        match classify(observed) {
            Observation::Meeting => match self {
                BotState::PreGame | BotState::InGame => (
                    BotState::InMeeting,
                    Transition::StartMeeting,
                ),
                _ => (self, Transition::Stay),
            },
            Observation::Gameplay => match self {
                BotState::InMeeting => (BotState::InMeeting, Transition::EndMeeting),
                BotState::PreGame => (BotState::InGame, Transition::StartGame),
                _ => (self, Transition::Stay),
            },
            Observation::NoRound => match self {
                BotState::InGame | BotState::InMeeting => (BotState::PreGame, Transition::EndGame),
                BotState::GameOver => (BotState::PreGame, Transition::Stay),
                _ => (self, Transition::Stay),
            },
        }
    }
}

/// The impostors among the living players.
pub open spec fn living_impostors(players: Seq<Player>) -> nat
    decreases players.len(),
{
    if players.len() == 0 {
        0
    } else {
        living_impostors(players.drop_last()) + if !players.last().dead
            && players.last().impostor {
            1nat
        } else {
            0nat
        }
    }
}

/// The crew members among the living players.
pub open spec fn living_crew(players: Seq<Player>) -> nat
    decreases players.len(),
{
    if players.len() == 0 {
        0
    } else {
        living_crew(players.drop_last()) + if !players.last().dead && !players.last().impostor {
            1nat
        } else {
            0nat
        }
    }
}

/// A round is over once no impostor lives, or the living impostors are at
/// least as many as the living crew.
pub open spec fn round_over(players: Seq<Player>) -> bool {
    living_impostors(players) == 0 || living_impostors(players) >= living_crew(players)
}

proof fn lemma_living_counts_bounded(players: Seq<Player>)
    ensures
        living_impostors(players) + living_crew(players) <= players.len(),
    decreases players.len(),
{
    if players.len() > 0 {
        lemma_living_counts_bounded(players.drop_last());
    }
}

/// Decides from a roster whether the round is over.
pub fn is_round_over(players: &Vec<Player>) -> (r: bool)
    ensures
        r == round_over(players@),
{
    let mut impostors: usize = 0;
    let mut crew: usize = 0;
    let mut i: usize = 0;
    while i < players.len()
        invariant
            i <= players@.len(),
            impostors == living_impostors(players@.subrange(0, i as int)),
            crew == living_crew(players@.subrange(0, i as int)),
        decreases players@.len() - i,
    {
        proof {
            let next = players@.subrange(0, i + 1);
            assert(next.drop_last() =~= players@.subrange(0, i as int));
            assert(next.last() == players@[i as int]);
            lemma_living_counts_bounded(next);
        }
        if !players[i].dead {
            if players[i].impostor {
                impostors = impostors + 1;
            } else {
                crew = crew + 1;
            }
        }
        i = i + 1;
    }
    assert(players@.subrange(0, players@.len() as int) =~= players@);
    impostors == 0 || impostors >= crew
}

/// Whether the round is over once a meeting has ended: judged from the
/// roster of a running game, and taken as over when no game runs.
pub open spec fn over_after_meeting(observed: Option<State>) -> bool {
    match observed {
        Some(State::InGame { players, .. }) => round_over(players@),
        _ => true,
    }
}

/// The phase that follows the end of a meeting.
pub open spec fn phase_after_meeting(observed: Option<State>) -> BotState {
    if over_after_meeting(observed) {
        BotState::GameOver
    } else {
        BotState::InGame
    }
}

/// Decides, from the state observed once the meeting has settled, whether
/// the round is over.
pub fn is_over_after_meeting(observed: &Option<State>) -> (r: bool)
    ensures
        r == over_after_meeting(*observed),
{
    match observed {
        Some(State::InGame { players, .. }) => is_round_over(players),
        _ => true,
    }
}

/// A meeting starts at most once: once a meeting observation has started
/// one, any further meeting observation calls for nothing.
pub proof fn lemma_meeting_starts_once(phase: BotState, first: Observation, again: Observation)
    requires
        step(phase, first).1 == Transition::StartMeeting,
        again == Observation::Meeting,
    ensures
        step(step(phase, first).0, again) == (BotState::InMeeting, Transition::Stay),
{
}

/// Repeating an observation calls for nothing the second time. Where the
/// first one ended a meeting, the phase that the end of the meeting settled
/// on (`settled`) is the one the repetition meets.
pub proof fn lemma_repeat_is_quiet(phase: BotState, obs: Observation, settled: BotState)
    requires
        step(phase, obs).1 != Transition::EndMeeting ==> settled == step(phase, obs).0,
        step(phase, obs).1 == Transition::EndMeeting ==> (settled == BotState::InGame || settled
            == BotState::GameOver),
    ensures
        step(settled, obs).1 == Transition::Stay,
{
}

/// A lobby, then play, then a meeting, then play again drives the phase from
/// `PreGame` to `InGame`, `InMeeting`, and back to `InGame` when the round is
/// not over, calling start-game, start-meeting and end-meeting once each.
pub proof fn lemma_round_with_one_meeting(
    lobby: Vec<Player>,
    playing: Vec<Player>,
    in_meeting: Vec<Player>,
    meeting: MeetingState,
    after: Vec<Player>,
)
    requires
        meeting.is_meeting_spec(),
        !round_over(after@),
    ensures
        ({
            let ended = Some(State::InGame { players: after, meeting: MeetingState::NoMeeting });
            let s0 = step(BotState::PreGame, observation_of(Some(State::Lobby { players: lobby })));
            let s1 = step(
                s0.0,
                observation_of(
                    Some(State::InGame { players: playing, meeting: MeetingState::NoMeeting }),
                ),
            );
            let s2 = step(
                s1.0,
                observation_of(Some(State::InGame { players: in_meeting, meeting })),
            );
            let s3 = step(s2.0, observation_of(ended));
            &&& s0 == (BotState::PreGame, Transition::Stay)
            &&& s1 == (BotState::InGame, Transition::StartGame)
            &&& s2 == (BotState::InMeeting, Transition::StartMeeting)
            &&& s3 == (BotState::InMeeting, Transition::EndMeeting)
            &&& phase_after_meeting(ended) == BotState::InGame
        }),
{
}

} // verus!
