//! Voice-state update requests, the plans built from them, and the summary of
//! a batch of such requests once the remote side has answered each one.

use crate::model::{ChannelId, GuildId, UserId, VoiceOccupant};
use vstd::prelude::*;

verus! {

/// One independent request to change a member's voice state: mute or unmute
/// it, move it to another channel, or both.
#[derive(Clone, Copy, Debug, PartialEq, Eq, Structural)]
pub struct VoiceUpdate {
    pub guild_id: GuildId,
    pub user_id: UserId,
    pub mute: Option<bool>,
    pub channel: Option<ChannelId>,
}

/// The request that sets only the mute flag of `m`.
pub open spec fn set_mute(m: VoiceOccupant, mute: bool) -> VoiceUpdate {
    VoiceUpdate { guild_id: m.guild_id, user_id: m.user_id, mute: Some(mute), channel: None }
}

/// The request that moves `m` to `channel`, setting its mute flag where given.
pub open spec fn move_to(m: VoiceOccupant, channel: ChannelId, mute: Option<bool>) -> VoiceUpdate {
    VoiceUpdate { guild_id: m.guild_id, user_id: m.user_id, mute, channel: Some(channel) }
}

/// The plan that asks, member by member and in order, for the request that
/// `req` gives, skipping the members for which it gives none.
pub open spec fn plan_over(
    ms: Seq<VoiceOccupant>,
    req: spec_fn(VoiceOccupant) -> Option<VoiceUpdate>,
) -> Seq<VoiceUpdate>
    decreases ms.len(),
{
    if ms.len() == 0 {
        Seq::empty()
    } else {
        let rest = plan_over(ms.drop_last(), req);
        match req(ms.last()) {
            Some(u) => rest.push(u),
            None => rest,
        }
    }
}

/// The requests of `plan` that concern `user`, in order.
pub open spec fn requests_for(plan: Seq<VoiceUpdate>, user: UserId) -> Seq<VoiceUpdate>
    decreases plan.len(),
{
    if plan.len() == 0 {
        Seq::empty()
    } else if plan.last().user_id == user {
        requests_for(plan.drop_last(), user).push(plan.last())
    } else {
        requests_for(plan.drop_last(), user)
    }
}

/// No two members of `ms` are the same user.
pub open spec fn distinct_users(ms: Seq<VoiceOccupant>) -> bool {
    forall|i: int, j: int|
        0 <= i < j < ms.len() ==> #[trigger] ms[i].user_id != #[trigger] ms[j].user_id
}

/// Each request that `req` gives for a member concerns that member.
pub open spec fn addressed_to_member(req: spec_fn(VoiceOccupant) -> Option<VoiceUpdate>) -> bool {
    forall|m: VoiceOccupant| #[trigger] req(m) is Some ==> req(m)->0.user_id == m.user_id
}

/// Extending the members by one extends the plan by that member's request.
pub proof fn lemma_plan_over_step(
    ms: Seq<VoiceOccupant>,
    i: int,
    req: spec_fn(VoiceOccupant) -> Option<VoiceUpdate>,
)
    requires
        0 <= i < ms.len(),
    ensures
        plan_over(ms.subrange(0, i + 1), req) == (match req(ms[i]) {
            Some(u) => plan_over(ms.subrange(0, i), req).push(u),
            None => plan_over(ms.subrange(0, i), req),
        }),
{
    assert(ms.subrange(0, i + 1).drop_last() =~= ms.subrange(0, i));
}

/// A plan concerns no user outside the members it was built from.
pub proof fn lemma_plan_over_absent(
    ms: Seq<VoiceOccupant>,
    req: spec_fn(VoiceOccupant) -> Option<VoiceUpdate>,
    user: UserId,
)
    requires
        addressed_to_member(req),
        forall|i: int| 0 <= i < ms.len() ==> #[trigger] ms[i].user_id != user,
    ensures
        requests_for(plan_over(ms, req), user) == Seq::<VoiceUpdate>::empty(),
    decreases ms.len(),
{
    if ms.len() > 0 {
        let rest = ms.drop_last();
        assert forall|i: int| 0 <= i < rest.len() implies #[trigger] rest[i].user_id != user by {
            assert(rest[i] == ms[i]);
        }
        lemma_plan_over_absent(rest, req, user);
        assert(ms.last() == ms[ms.len() - 1]);
        if req(ms.last()) is Some {
            let p = plan_over(ms, req);
            assert(p.drop_last() == plan_over(rest, req));
        }
    }
}

/// In a plan built over members that are distinct users, each member gets
/// exactly the request that `req` gives for it, and nothing else.
pub proof fn lemma_plan_over_single(
    ms: Seq<VoiceOccupant>,
    req: spec_fn(VoiceOccupant) -> Option<VoiceUpdate>,
    k: int,
)
    requires
        addressed_to_member(req),
        distinct_users(ms),
        0 <= k < ms.len(),
    ensures
        requests_for(plan_over(ms, req), ms[k].user_id) == (match req(ms[k]) {
            Some(u) => seq![u],
            None => Seq::<VoiceUpdate>::empty(),
        }),
    decreases ms.len(),
{
    let rest = ms.drop_last();
    let user = ms[k].user_id;
    let p = plan_over(ms, req);
    if k == ms.len() - 1 {
        assert forall|i: int| 0 <= i < rest.len() implies #[trigger] rest[i].user_id != user by {
            assert(rest[i] == ms[i]);
        }
        lemma_plan_over_absent(rest, req, user);
        if req(ms.last()) is Some {
            assert(p.drop_last() == plan_over(rest, req));
            assert(Seq::<VoiceUpdate>::empty().push(req(ms[k])->0) =~= seq![req(ms[k])->0]);
        }
    } else {
        assert(distinct_users(rest)) by {
            assert forall|i: int, j: int| 0 <= i < j < rest.len() implies
                #[trigger] rest[i].user_id != #[trigger] rest[j].user_id by {
                assert(rest[i] == ms[i] && rest[j] == ms[j]);
            }
        }
        assert(rest[k] == ms[k]);
        lemma_plan_over_single(rest, req, k);
        assert(ms.last() == ms[ms.len() - 1]);
        if req(ms.last()) is Some {
            assert(p.drop_last() == plan_over(rest, req));
        }
    }
}

/// The requests for one user in two plans run one after the other are those
/// of the first, then those of the second.
pub proof fn lemma_requests_for_append(a: Seq<VoiceUpdate>, b: Seq<VoiceUpdate>, user: UserId)
    ensures
        requests_for(a + b, user) == requests_for(a, user) + requests_for(b, user),
    decreases b.len(),
{
    if b.len() == 0 {
        assert(a + b =~= a);
        assert(requests_for(a, user) + requests_for(b, user) =~= requests_for(a, user));
    } else {
        lemma_requests_for_append(a, b.drop_last(), user);
        assert((a + b).drop_last() =~= a + b.drop_last());
        assert((a + b).last() == b.last());
        if b.last().user_id == user {
            assert(requests_for(a, user) + requests_for(b, user) =~= (requests_for(a, user)
                + requests_for(b.drop_last(), user)).push(b.last()));
        }
    }
}

/// The positions of `results` whose outcome is a success (`ok`) or a
/// failure (`!ok`), in increasing order.
pub open spec fn outcome_indices<O, E>(results: Seq<Result<O, E>>, ok: bool) -> Seq<usize>
    decreases results.len(),
{
    if results.len() == 0 {
        Seq::empty()
    } else {
        let rest = outcome_indices(results.drop_last(), ok);
        if (results.last() is Ok) == ok {
            rest.push((results.len() - 1) as usize)
        } else {
            rest
        }
    }
}

/// The number of failed outcomes among `results`.
pub open spec fn failure_count<O, E>(results: Seq<Result<O, E>>) -> nat
    decreases results.len(),
{
    if results.len() == 0 {
        0
    } else {
        failure_count(results.drop_last()) + if results.last() is Err {
            1nat
        } else {
            0nat
        }
    }
}

/// What became of a batch of requests: the positions that were applied, the
/// positions that failed, and the one channel to notify of the failures, if
/// any.
pub struct BatchReport {
    pub applied: Vec<usize>,
    pub failed: Vec<usize>,
    pub notify: Option<ChannelId>,
}

/// Splits the outcomes of a batch into the positions that succeeded and those
/// that failed. No outcome is undone: a success stays applied whatever its
/// siblings did.
pub fn split_outcomes<O, E>(results: &Vec<Result<O, E>>) -> (r: (Vec<usize>, Vec<usize>))
    ensures
        r.0@ == outcome_indices(results@, true),
        r.1@ == outcome_indices(results@, false),
{
    let mut applied: Vec<usize> = Vec::new();
    let mut failed: Vec<usize> = Vec::new();
    let mut i: usize = 0;
    while i < results.len()
        invariant
            i <= results@.len(),
            applied@ == outcome_indices(results@.subrange(0, i as int), true),
            failed@ == outcome_indices(results@.subrange(0, i as int), false),
        decreases results@.len() - i,
    {
        proof {
            let next = results@.subrange(0, i + 1);
            assert(next.drop_last() =~= results@.subrange(0, i as int));
            assert(next.last() == results@[i as int]);
        }
        if results[i].is_ok() {
            applied.push(i);
        } else {
            failed.push(i);
        }
        i = i + 1;
    }
    assert(results@.subrange(0, results@.len() as int) =~= results@);
    (applied, failed)
}

/// The failed positions of a batch are as many as its failed outcomes, and
/// with the applied ones they account for every request.
pub proof fn lemma_outcomes_partition<O, E>(results: Seq<Result<O, E>>)
    ensures
        outcome_indices(results, false).len() == failure_count(results),
        outcome_indices(results, true).len() + outcome_indices(results, false).len()
            == results.len(),
    decreases results.len(),
{
    if results.len() > 0 {
        lemma_outcomes_partition(results.drop_last());
    }
}

} // verus!
