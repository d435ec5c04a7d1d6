//! Who takes part in a round, and which in-game player each voice-channel
//! member is.

use crate::model::{KnownAs, Player, RoleId, UserId, VoiceOccupant};
use std::collections::HashMap;
use vstd::prelude::*;

verus! {

broadcast use vstd::std_specs::hash::group_hash_axioms;

/// A member takes part unless it is a bot or holds the spectator role.
pub open spec fn takes_part(m: VoiceOccupant, spectator_role: RoleId) -> bool {
    !m.bot && !m.roles@.contains(spectator_role)
}

/// The members of `ms` that take part, in order.
pub open spec fn participants(ms: Seq<VoiceOccupant>, spectator_role: RoleId) -> Seq<VoiceOccupant>
    decreases ms.len(),
{
    if ms.len() == 0 {
        Seq::empty()
    } else {
        let rest = participants(ms.drop_last(), spectator_role);
        if takes_part(ms.last(), spectator_role) {
            rest.push(ms.last())
        } else {
            rest
        }
    }
}

fn has_role(roles: &Vec<RoleId>, role: RoleId) -> (r: bool)
    ensures
        r == roles@.contains(role),
{
    let mut i: usize = 0;
    while i < roles.len()
        invariant
            i <= roles@.len(),
            forall|j: int| 0 <= j < i ==> roles@[j] != role,
        decreases roles@.len() - i,
    {
        if roles[i] == role {
            return true;
        }
        i = i + 1;
    }
    false
}

/// Keeps the members of a voice channel that take part in the round: bots
/// and spectators are left out. The order of the members is kept.
pub fn present_members(occupants: Vec<VoiceOccupant>, spectator_role: RoleId) -> (r: Vec<
    VoiceOccupant,
>)
    ensures
        r@ == participants(occupants@, spectator_role),
{
    let ghost all = occupants@;
    let mut rest = occupants;
    let mut out: Vec<VoiceOccupant> = Vec::new();
    assert(all == rest@);
    assert(participants(all, spectator_role) =~= participants(rest@, spectator_role) + out@);
    while rest.len() > 0
        invariant
            participants(all, spectator_role) == participants(rest@, spectator_role) + out@,
        decreases rest@.len(),
    {
        let ghost before = rest@;
        let ghost before_out = out@;
        let m = rest.pop().unwrap();
        assert(before.drop_last() =~= rest@);
        let keep = !m.bot && !has_role(&m.roles, spectator_role);
        if keep {
            out.insert(0, m);
            assert(participants(before, spectator_role) == participants(rest@, spectator_role).push(
                m,
            ));
            assert(participants(rest@, spectator_role).push(m) + before_out =~= participants(
                rest@,
                spectator_role,
            ) + out@);
        }
    }
    assert(participants(rest@, spectator_role) =~= Seq::<VoiceOccupant>::empty());
    assert(participants(all, spectator_role) =~= out@);
    out
}

/// The name under which a member is looked up among the players: the name
/// an operator assigned to it, else the name it is known as.
pub open spec fn lookup_key(aliases: Map<UserId, String>, m: VoiceOccupant) -> Seq<char> {
    if aliases.contains_key(m.user_id) {
        aliases[m.user_id]@
    } else {
        m.known_as_spec()
    }
}

/// The first player whose name is exactly `key`, if any.
pub open spec fn first_match(players: Seq<Player>, key: Seq<char>) -> Option<Player>
    decreases players.len(),
{
    if players.len() == 0 {
        None
    } else if players[0].name@ == key {
        Some(players[0])
    } else {
        first_match(players.drop_first(), key)
    }
}

/// The player that member `m` is matched to.
pub open spec fn match_of(aliases: Map<UserId, String>, players: Seq<Player>, m: VoiceOccupant) -> Option<
    Player,
> {
    first_match(players, lookup_key(aliases, m))
}

/// Some player is named exactly `key` iff a first such player is found, and
/// the player found bears that name.
pub proof fn lemma_first_match(players: Seq<Player>, key: Seq<char>)
    ensures
        first_match(players, key) is Some <==> exists|j: int|
            0 <= j < players.len() && #[trigger] players[j].name@ == key,
        first_match(players, key) is Some ==> first_match(players, key)->0.name@ == key,
    decreases players.len(),
{
    if players.len() > 0 {
        let rest = players.drop_first();
        lemma_first_match(rest, key);
        if players[0].name@ != key {
            if exists|j: int| 0 <= j < players.len() && #[trigger] players[j].name@ == key {
                let j = choose|j: int| 0 <= j < players.len() && #[trigger] players[j].name@ == key;
                assert(rest[j - 1] == players[j]);
            }
            if exists|j: int| 0 <= j < rest.len() && #[trigger] rest[j].name@ == key {
                let j = choose|j: int| 0 <= j < rest.len() && #[trigger] rest[j].name@ == key;
                assert(players[j + 1] == rest[j]);
            }
        }
    }
}

/// A member of `ms` that matches no player is among the unmatched users.
pub proof fn lemma_unmatched_listed(
    aliases: Map<UserId, String>,
    players: Seq<Player>,
    ms: Seq<VoiceOccupant>,
    k: int,
)
    requires
        0 <= k < ms.len(),
        match_of(aliases, players, ms[k]) is None,
    ensures
        unmatched_users(aliases, players, ms).contains(ms[k].user_id),
    decreases ms.len(),
{
    let rest = ms.drop_last();
    if k == ms.len() - 1 {
        let u = unmatched_users(aliases, players, ms);
        assert(u[u.len() - 1] == ms[k].user_id);
    } else {
        assert(rest[k] == ms[k]);
        lemma_unmatched_listed(aliases, players, rest, k);
        let u = unmatched_users(aliases, players, rest);
        let i = choose|i: int| 0 <= i < u.len() && u[i] == ms[k].user_id;
        if match_of(aliases, players, ms.last()) is None {
            assert(unmatched_users(aliases, players, ms)[i] == u[i]);
        }
    }
}

/// The name under which `m` is looked up among the players.
pub fn lookup_key_of(aliases: &HashMap<UserId, String>, m: &VoiceOccupant) -> (r: String)
    ensures
        r@ == lookup_key(aliases@, *m),
{
    match aliases.get(&m.user_id) {
        Some(alias) => alias.clone(),
        None => m.known_as(),
    }
}

/// The first player named exactly `key` (names are case-sensitive).
pub fn find_player(players: &Vec<Player>, key: &String) -> (r: Option<Player>)
    ensures
        r == first_match(players@, key@),
{
    let mut j: usize = 0;
    assert(players@.subrange(0, players@.len() as int) =~= players@);
    while j < players.len()
        invariant
            j <= players@.len(),
            first_match(players@, key@) == first_match(players@.subrange(j as int, players@.len() as int), key@),
        decreases players@.len() - j,
    {
        let ghost tail = players@.subrange(j as int, players@.len() as int);
        assert(tail[0] == players@[j as int]);
        if players[j].name == *key {
            return Some(players[j].duplicate());
        }
        assert(tail.drop_first() =~= players@.subrange(j + 1, players@.len() as int));
        j = j + 1;
    }
    None
}

/// Matches each member to a player: the result holds, at each member's
/// position, the first player whose name is the member's lookup name, or
/// nothing where no player has that name.
pub fn match_players(
    members: &Vec<VoiceOccupant>,
    players: &Vec<Player>,
    aliases: &HashMap<UserId, String>,
) -> (r: Vec<Option<Player>>)
    ensures
        r@.len() == members@.len(),
        forall|i: int| 0 <= i < members@.len() ==> #[trigger] r@[i] == match_of(aliases@, players@, members@[i]),
{
    let mut out: Vec<Option<Player>> = Vec::new();
    let mut i: usize = 0;
    while i < members.len()
        invariant
            i <= members@.len(),
            out@.len() == i,
            forall|j: int| 0 <= j < i ==> #[trigger] out@[j] == match_of(aliases@, players@, members@[j]),
        decreases members@.len() - i,
    {
        let key = lookup_key_of(aliases, &members[i]);
        let found = find_player(players, &key);
        out.push(found);
        i = i + 1;
    }
    out
}

/// The users among `ms` that match no player, in order.
pub open spec fn unmatched_users(aliases: Map<UserId, String>, players: Seq<Player>, ms: Seq<VoiceOccupant>) -> Seq<
    UserId,
>
    decreases ms.len(),
{
    if ms.len() == 0 {
        Seq::empty()
    } else {
        let rest = unmatched_users(aliases, players, ms.drop_last());
        if match_of(aliases, players, ms.last()) is None {
            rest.push(ms.last().user_id)
        } else {
            rest
        }
    }
}

/// The users among `members` that match no player, in order.
pub fn unmatched_members(
    members: &Vec<VoiceOccupant>,
    players: &Vec<Player>,
    aliases: &HashMap<UserId, String>,
) -> (r: Vec<UserId>)
    ensures
        r@ == unmatched_users(aliases@, players@, members@),
{
    let matches = match_players(members, players, aliases);
    let mut out: Vec<UserId> = Vec::new();
    let mut i: usize = 0;
    while i < members.len()
        invariant
            i <= members@.len(),
            matches@.len() == members@.len(),
            forall|j: int| 0 <= j < members@.len() ==> #[trigger] matches@[j] == match_of(aliases@, players@, members@[j]),
            out@ == unmatched_users(aliases@, players@, members@.subrange(0, i as int)),
        decreases members@.len() - i,
    {
        proof {
            let next = members@.subrange(0, i + 1);
            assert(next.drop_last() =~= members@.subrange(0, i as int));
            assert(next.last() == members@[i as int]);
        }
        if matches[i].is_none() {
            out.push(members[i].user_id);
        }
        i = i + 1;
    }
    assert(members@.subrange(0, members@.len() as int) =~= members@);
    out
}

} // verus!
