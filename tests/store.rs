use std::collections::HashSet;
use taskinator::context::{Capability, MarkDeadReply, ReactionOutcome, StoreError};
use taskinator::{Config, Context, VoiceOccupant, VoiceUpdate};

const LIVING: u64 = 100;
const DEAD: u64 = 200;
const SPECTATOR: u64 = 900;
const GUILD: u64 = 7;

fn config() -> Config {
    Config {
        token: String::from("SECRET-REDACTED"),
        broadcast_channel: 50,
        living_channel: LIVING,
        dead_channel: DEAD,
        spectator_role: SPECTATOR,
    }
}

fn member(user_id: u64, name: &str) -> VoiceOccupant {
    VoiceOccupant {
        user_id,
        guild_id: GUILD,
        roles: Vec::new(),
        nick: None,
        name: String::from(name),
        bot: false,
    }
}

fn context_with_owner(owner: u64) -> Context {
    let mut owners = HashSet::new();
    owners.insert(owner);
    Context::new(config(), owners)
}

fn mute(user_id: u64, on: bool) -> VoiceUpdate {
    VoiceUpdate { guild_id: GUILD, user_id, mute: Some(on), channel: None }
}

fn moved(user_id: u64, channel: u64, on: Option<bool>) -> VoiceUpdate {
    VoiceUpdate { guild_id: GUILD, user_id, mute: on, channel: Some(channel) }
}

#[test]
fn new_context_has_no_round() {
    let ctx = context_with_owner(1);
    assert!(!ctx.is_game_in_progress());
    assert_eq!(ctx.broadcast(), None);
    assert!(ctx.is_in_control(1));
    assert!(!ctx.is_in_control(2));
}

#[test]
fn start_game_records_control() {
    let mut ctx = context_with_owner(1);
    assert_eq!(ctx.start_game(10, 11, 12, GUILD), Ok(()));
    assert!(ctx.is_game_in_progress());
    let game = ctx.read_game().unwrap();
    assert_eq!((game.ctrl_channel, game.ctrl_msg, game.ctrl_user, game.guild_id), (10, 11, 12, GUILD));
    assert!(!game.meeting_in_progress);
    assert_eq!(ctx.broadcast(), Some(10));
    assert!(ctx.is_reacting_to_control(11));
    assert!(!ctx.is_reacting_to_control(12));
    assert!(ctx.is_in_control(12));
    assert!(ctx.is_in_control(1));
    assert!(!ctx.is_in_control(13));
}

#[test]
fn start_game_twice_fails() {
    let mut ctx = context_with_owner(1);
    assert_eq!(ctx.start_game(10, 11, 12, GUILD), Ok(()));
    assert_eq!(ctx.start_game(20, 21, 22, GUILD), Err(StoreError::AlreadyInProgress));
    assert_eq!(ctx.broadcast(), Some(10));
    assert!(ctx.is_reacting_to_control(11));
}

#[test]
fn mark_dead_is_idempotent() {
    let mut ctx = context_with_owner(1);
    assert!(!ctx.mark_dead(5));
    ctx.start_game(10, 11, 12, GUILD).unwrap();
    assert!(ctx.mark_dead(5));
    assert!(!ctx.mark_dead(5));
}

#[test]
fn make_dead_mutes_during_meeting_only() {
    let mut ctx = context_with_owner(1);
    ctx.start_game(10, 11, 12, GUILD).unwrap();
    assert_eq!(ctx.make_dead(5), None);
    assert!(ctx.set_meeting_in_progress(true));
    assert_eq!(ctx.make_dead(6), Some(mute(6, true)));
    assert_eq!(ctx.make_dead(6), None);
}

#[test]
fn set_meeting_without_round() {
    let mut ctx = context_with_owner(1);
    assert!(!ctx.set_meeting_in_progress(true));
}

#[test]
fn mark_dead_command_rejects_unauthorized_user() {
    let mut ctx = context_with_owner(1);
    ctx.start_game(10, 11, 12, GUILD).unwrap();
    assert!(matches!(ctx.mark_dead_command(3, Some(5)), MarkDeadReply::Rejected));
    // the rejected command left the dead set alone
    assert!(ctx.read_game().unwrap().dead.is_empty());
    assert!(ctx.mark_dead(5));
}

#[test]
fn mark_dead_command_by_control_user_and_owner() {
    let mut ctx = context_with_owner(1);
    ctx.start_game(10, 11, 12, GUILD).unwrap();
    match ctx.mark_dead_command(12, Some(5)) {
        MarkDeadReply::Marked { newly_dead, update } => {
            assert!(newly_dead);
            assert_eq!(update, None);
        }
        _ => panic!("control user must be able to mark dead"),
    }
    match ctx.mark_dead_command(1, Some(5)) {
        MarkDeadReply::Marked { newly_dead, .. } => assert!(!newly_dead),
        _ => panic!("owner must be able to mark dead"),
    }
}

#[test]
fn mark_dead_command_errors() {
    let mut ctx = context_with_owner(1);
    assert!(matches!(ctx.mark_dead_command(1, Some(5)), MarkDeadReply::NoRound));
    assert!(matches!(ctx.mark_dead_command(2, Some(5)), MarkDeadReply::Rejected));
    ctx.start_game(10, 11, 12, GUILD).unwrap();
    assert!(matches!(ctx.mark_dead_command(12, None), MarkDeadReply::MissingTarget));
}

#[test]
fn reactions_on_control_message() {
    let mut ctx = context_with_owner(1);
    assert!(matches!(ctx.on_reaction(12, 11, Capability::ToggleMeeting), ReactionOutcome::Ignored));
    ctx.start_game(10, 11, 12, GUILD).unwrap();
    assert!(matches!(ctx.on_reaction(12, 99, Capability::ToggleMeeting), ReactionOutcome::Ignored));
    assert!(matches!(ctx.on_reaction(3, 11, Capability::ToggleMeeting), ReactionOutcome::Rejected));
    assert!(matches!(
        ctx.on_reaction(12, 11, Capability::ToggleMeeting),
        ReactionOutcome::StartMeeting
    ));
    ctx.set_meeting_in_progress(true);
    assert!(matches!(ctx.on_reaction(12, 11, Capability::ToggleMeeting), ReactionOutcome::EndMeeting));
    match ctx.on_reaction(3, 11, Capability::MarkSelfDead) {
        ReactionOutcome::MarkedDead { newly_dead, update } => {
            assert!(newly_dead);
            assert_eq!(update, Some(mute(3, true)));
        }
        _ => panic!("anyone may mark themselves dead"),
    }
}

#[test]
fn members_in_channel_skip_bots_and_spectators() {
    let ctx = context_with_owner(1);
    let mut bot = member(2, "bot");
    bot.bot = true;
    let mut spectator = member(3, "watcher");
    spectator.roles = vec![4, SPECTATOR];
    let kept = ctx.get_members_in_channel(vec![member(1, "a"), bot, spectator, member(5, "b")]);
    let ids: Vec<u64> = kept.iter().map(|m| m.user_id).collect();
    assert_eq!(ids, vec![1, 5]);
}

#[test]
fn mute_players_after_meeting() {
    let mut ctx = context_with_owner(1);
    ctx.start_game(10, 11, 12, GUILD).unwrap();
    ctx.mark_dead(3);
    ctx.set_meeting_in_progress(true);
    let plan = ctx.mute_players(vec![member(2, "a"), member(3, "b")]);
    assert_eq!(plan, vec![mute(2, true), moved(3, DEAD, Some(false))]);
    assert!(!ctx.read_game().unwrap().meeting_in_progress);
}

#[test]
fn emergency_meeting_one_request_per_occupant() {
    let mut ctx = context_with_owner(1);
    ctx.start_game(10, 11, 12, GUILD).unwrap();
    ctx.mark_dead(3);
    let plan = ctx.emergency_meeting(
        vec![member(2, "a"), member(3, "b"), member(4, "c")],
        vec![member(5, "d")],
    );
    assert_eq!(plan, vec![mute(2, false), mute(4, false), moved(5, LIVING, Some(true))]);
    assert!(ctx.read_game().unwrap().meeting_in_progress);
}

#[test]
fn death_during_meeting_mutes_at_once() {
    let mut ctx = context_with_owner(1);
    ctx.start_game(10, 11, 12, GUILD).unwrap();
    ctx.emergency_meeting(vec![member(2, "a")], Vec::new());
    assert_eq!(ctx.make_dead(2), Some(mute(2, true)));
    ctx.mute_players(vec![member(2, "a")]);
    assert_eq!(ctx.make_dead(3), None);
}

#[test]
fn failures_after_round_ended_are_notified() {
    let mut ctx = context_with_owner(1);
    ctx.start_game(10, 11, 12, GUILD).unwrap();
    let plan = ctx.end_game(vec![member(2, "a")], Vec::new()).unwrap();
    let results: Vec<Result<(), String>> =
        plan.updates.iter().map(|_| Err(String::from("x"))).collect();
    let report = ctx.batch(&results);
    assert_eq!(report.failed, vec![0]);
    assert_eq!(report.notify, Some(50));
}

#[test]
fn end_game_twice_makes_no_second_request() {
    let mut ctx = context_with_owner(1);
    ctx.start_game(10, 11, 12, GUILD).unwrap();
    let first = ctx.end_game(vec![member(2, "a")], vec![member(3, "b")]).unwrap();
    assert_eq!(first.control_channel, 10);
    assert_eq!(first.control_message, 11);
    assert_eq!(first.updates, vec![mute(2, false), moved(3, LIVING, None)]);
    assert!(!ctx.is_game_in_progress());
    assert!(ctx.end_game(vec![member(2, "a")], vec![member(3, "b")]).is_none());
}

#[test]
fn batch_reports_each_failure_once() {
    let mut ctx = context_with_owner(1);
    let results: Vec<Result<(), String>> =
        vec![Ok(()), Err(String::from("x")), Ok(()), Err(String::from("y")), Ok(())];
    let report = ctx.batch(&results);
    assert_eq!(report.applied, vec![0, 2, 4]);
    assert_eq!(report.failed, vec![1, 3]);
    // no round runs: the failures go to the broadcast channel
    assert_eq!(report.notify, Some(50));
    ctx.start_game(10, 11, 12, GUILD).unwrap();
    let report = ctx.batch(&results);
    assert_eq!(report.failed.len(), 2);
    assert_eq!(report.applied.len(), 3);
    assert_eq!(report.notify, Some(10));
    let all_ok: Vec<Result<(), String>> = vec![Ok(()), Ok(())];
    let report = ctx.batch(&all_ok);
    assert_eq!(report.notify, None);
    assert!(report.failed.is_empty());
}
