use taskinator::bot::{
    BuildError, ChannelKind, Command, IdentReply, MatchReport, Reply,
};
use taskinator::lifecycle::{is_over_after_meeting, is_round_over};
use taskinator::{
    Bot, BotState, Builder, Channels, Config, KnownAs, MeetingState, Player, State, Transition,
    VoiceOccupant, VoiceUpdate,
};

const BROADCAST: u64 = 50;
const LIVING: u64 = 100;
const DEAD: u64 = 200;
const SPECTATOR: u64 = 900;
const GUILD: u64 = 7;
const OWNER: u64 = 1;

fn channels() -> Channels {
    Channels {
        broadcast_channel: BROADCAST,
        living_channel: LIVING,
        dead_channel: DEAD,
        spectator_role: SPECTATOR,
    }
}

fn bot() -> Bot {
    Builder { channels: channels() }
        .build(42, OWNER, None, ChannelKind::Text, ChannelKind::Voice, ChannelKind::Voice)
        .unwrap_or_else(|_| panic!("valid channels"))
}

fn member(user_id: u64, name: &str) -> VoiceOccupant {
    VoiceOccupant {
        user_id,
        guild_id: GUILD,
        roles: Vec::new(),
        nick: None,
        name: String::from(name),
        bot: false,
    }
}

fn player(name: &str, dead: bool, impostor: bool) -> Player {
    Player { name: String::from(name), dead, impostor }
}

fn in_game(players: Vec<Player>, meeting: MeetingState) -> Option<State> {
    Some(State::InGame { players, meeting })
}

fn mute(user_id: u64, on: bool) -> VoiceUpdate {
    VoiceUpdate { guild_id: GUILD, user_id, mute: Some(on), channel: None }
}

fn moved(user_id: u64, channel: u64, on: Option<bool>) -> VoiceUpdate {
    VoiceUpdate { guild_id: GUILD, user_id, mute: on, channel: Some(channel) }
}

fn build_err(r: Result<Bot, BuildError>) -> BuildError {
    match r {
        Ok(_) => panic!("expected the start to be refused"),
        Err(e) => e,
    }
}

#[test]
fn builder_takes_channels_from_config() {
    let config = Config {
        token: String::from("SECRET-REDACTED"),
        broadcast_channel: BROADCAST,
        living_channel: LIVING,
        dead_channel: DEAD,
        spectator_role: SPECTATOR,
    };
    assert_eq!(Bot::builder(&config).channels, channels());
}

#[test]
fn build_checks_channels_in_order() {
    let b = || Builder { channels: channels() };
    assert_eq!(
        build_err(b().build(42, OWNER, None, ChannelKind::Missing, ChannelKind::Missing, ChannelKind::Voice)),
        BuildError::MissingChannel(BROADCAST)
    );
    assert_eq!(
        build_err(b().build(42, OWNER, None, ChannelKind::Voice, ChannelKind::Voice, ChannelKind::Voice)),
        BuildError::WrongKind(BROADCAST)
    );
    assert_eq!(
        build_err(b().build(42, OWNER, None, ChannelKind::Text, ChannelKind::NotGuild, ChannelKind::Voice)),
        BuildError::NotInGuild(LIVING)
    );
    assert_eq!(
        build_err(b().build(42, OWNER, None, ChannelKind::Text, ChannelKind::Voice, ChannelKind::OtherGuild)),
        BuildError::WrongKind(DEAD)
    );
    assert_eq!(
        build_err(b().build(42, OWNER, None, ChannelKind::Text, ChannelKind::Text, ChannelKind::Voice)),
        BuildError::WrongKind(LIVING)
    );
}

#[test]
fn build_owners_from_team_or_owner() {
    let solo = bot();
    assert_eq!(solo.bot_id(), 42);
    assert_eq!(solo.channels(), channels());
    assert!(solo.is_owner(OWNER));
    assert!(!solo.is_owner(2));
    let team = Builder { channels: channels() }
        .build(42, OWNER, Some(vec![2, 3]), ChannelKind::Text, ChannelKind::Voice, ChannelKind::Voice)
        .unwrap_or_else(|_| panic!("valid channels"));
    assert!(team.is_owner(2));
    assert!(team.is_owner(3));
    assert!(!team.is_owner(OWNER));
}

#[test]
fn known_as_prefers_nickname() {
    let mut m = member(1, "account");
    assert_eq!(m.known_as(), "account");
    m.nick = Some(String::from("nick"));
    assert_eq!(m.known_as(), "nick");
}

#[test]
fn lifecycle_round_with_one_meeting() {
    let roster = || vec![player("a", false, true), player("b", false, false), player("c", false, false)];
    let mut phase = BotState::PreGame;
    let mut calls = Vec::new();
    for observed in [
        Some(State::Lobby { players: roster() }),
        in_game(roster(), MeetingState::NoMeeting),
        in_game(roster(), MeetingState::Discussion),
        in_game(roster(), MeetingState::Voted),
        in_game(roster(), MeetingState::NoMeeting),
    ] {
        let (next, transition) = phase.observe(&observed);
        phase = next;
        calls.push(transition);
        if transition == Transition::EndMeeting {
            let b = bot();
            b.end_meeting(&mut phase, Vec::new(), Vec::new(), &observed);
        }
    }
    assert_eq!(
        calls,
        vec![
            Transition::Stay,
            Transition::StartGame,
            Transition::StartMeeting,
            Transition::Stay,
            Transition::EndMeeting
        ]
    );
    assert_eq!(phase, BotState::InGame);
}

#[test]
fn lifecycle_ends_round_on_lobby() {
    let (phase, t) = BotState::InMeeting.observe(&Some(State::Menu));
    assert_eq!((phase, t), (BotState::PreGame, Transition::EndGame));
    let (phase, t) = BotState::GameOver.observe(&None);
    assert_eq!((phase, t), (BotState::PreGame, Transition::Stay));
    let (phase, t) = BotState::GameOver.observe(&in_game(Vec::new(), MeetingState::NoMeeting));
    assert_eq!((phase, t), (BotState::GameOver, Transition::Stay));
    let (phase, t) = BotState::PreGame.observe(&None);
    assert_eq!((phase, t), (BotState::PreGame, Transition::Stay));
}

#[test]
fn round_over_when_no_impostor_lives() {
    let players = vec![
        player("a", true, true),
        player("b", false, false),
        player("c", false, false),
        player("d", false, false),
    ];
    assert!(is_round_over(&players));
}

#[test]
fn round_goes_on_while_crew_outnumbers_impostors() {
    let players = vec![player("a", false, true), player("b", false, false), player("c", false, false)];
    assert!(!is_round_over(&players));
    let even = vec![player("a", false, true), player("b", false, false), player("c", true, false)];
    assert!(is_round_over(&even));
    assert!(is_over_after_meeting(&None));
    assert!(is_over_after_meeting(&Some(State::Menu)));
}

#[test]
fn end_meeting_routes_to_end_game_when_over() {
    let b = bot();
    let observed = in_game(
        vec![
            player("a", true, true),
            player("b", false, false),
            player("c", false, false),
            player("d", false, false),
        ],
        MeetingState::NoMeeting,
    );
    let mut phase = BotState::InMeeting;
    let plan = b.end_meeting(&mut phase, vec![member(2, "b")], vec![member(1, "a")], &observed);
    assert_eq!(phase, BotState::GameOver);
    assert_eq!(plan, vec![mute(2, false), moved(1, LIVING, None)]);
}

#[test]
fn end_meeting_remutes_when_round_goes_on() {
    let b = bot();
    let observed = in_game(
        vec![
            player("a", false, true),
            player("b", false, false),
            player("c", true, false),
            player("d", false, false),
        ],
        MeetingState::NoMeeting,
    );
    let mut phase = BotState::InMeeting;
    let plan = b.end_meeting(
        &mut phase,
        vec![member(1, "a"), member(3, "c"), member(9, "stranger")],
        Vec::new(),
        &observed,
    );
    assert_eq!(phase, BotState::InGame);
    assert_eq!(plan, vec![mute(1, true), moved(3, DEAD, Some(false))]);
}

#[test]
fn start_meeting_unmutes_living_and_recalls_dead() {
    let b = bot();
    let observed = in_game(
        vec![player("a", false, false), player("c", true, false)],
        MeetingState::Discussion,
    );
    let plan = b
        .start_meeting(vec![member(1, "a"), member(3, "c"), member(4, "x")], vec![member(5, "e")], &observed)
        .unwrap();
    assert_eq!(plan, vec![mute(1, false), moved(5, LIVING, Some(true))]);
    assert!(b.start_meeting(Vec::new(), Vec::new(), &Some(State::Menu)).is_none());
}

#[test]
fn start_game_mutes_matched_players() {
    let b = bot();
    let observed = in_game(vec![player("a", false, false)], MeetingState::NoMeeting);
    assert_eq!(b.start_game(vec![member(1, "a"), member(2, "z")], &observed).unwrap(), vec![mute(1, true)]);
    assert!(b.start_game(Vec::new(), &None).is_none());
}

#[test]
fn matching_by_display_name() {
    let b = bot();
    let observed = Some(State::Lobby {
        players: vec![player("Red", false, false), player("Blue", false, false), player("Red", true, false)],
    });
    let mut nicked = member(2, "account");
    nicked.nick = Some(String::from("Blue"));
    let members = vec![member(1, "Red"), nicked, member(3, "red")];
    let matches = b.match_members_to_players(&members, &observed).unwrap();
    assert_eq!(matches.len(), 3);
    let first = matches[0].as_ref().unwrap();
    assert_eq!(first.name, "Red");
    assert!(!first.dead);
    assert_eq!(matches[1].as_ref().unwrap().name, "Blue");
    assert!(matches[2].is_none());
    assert!(b.match_members_to_players(&members, &Some(State::Menu)).is_none());
}

#[test]
fn unmatched_member_reported_and_left_alone() {
    let b = bot();
    let observed = in_game(vec![player("Red", false, false)], MeetingState::NoMeeting);
    match b.check_matching(vec![member(1, "Red"), member(2, "Green")], &observed) {
        MatchReport::Unmatched(ids) => assert_eq!(ids, vec![2]),
        _ => panic!("expected an unmatched member"),
    }
    let plan = b.mute_players(vec![member(1, "Red"), member(2, "Green")], &observed).unwrap();
    assert_eq!(plan, vec![mute(1, true)]);
    assert!(matches!(b.check_matching(vec![member(1, "Red")], &observed), MatchReport::AllMatched));
    assert!(matches!(b.check_matching(vec![member(1, "Red")], &None), MatchReport::NoRoster));
}

#[test]
fn ident_sets_own_name() {
    let mut b = bot();
    match b.ident_player(5, vec![String::from("Red")]) {
        IdentReply::SetOwn { name } => assert_eq!(name, "Red"),
        _ => panic!("expected the author's name to be set"),
    }
    let observed = in_game(vec![player("Red", false, false)], MeetingState::NoMeeting);
    let matches = b.match_members_to_players(&vec![member(5, "someone")], &observed).unwrap();
    assert_eq!(matches[0].as_ref().unwrap().name, "Red");
}

#[test]
fn ident_by_owner_names_mentioned_user() {
    let mut b = bot();
    match b.ident_player(OWNER, vec![String::from("<@77>"), String::from("Blue")]) {
        IdentReply::SetFor { target, name } => {
            assert_eq!(target, 77);
            assert_eq!(name, "Blue");
        }
        _ => panic!("expected the mentioned user's name to be set"),
    }
    match b.ident_player(OWNER, vec![String::from("<@!78>"), String::from("Green")]) {
        IdentReply::SetFor { target, .. } => assert_eq!(target, 78),
        _ => panic!("expected the mentioned user's name to be set"),
    }
    let observed = in_game(vec![player("Blue", false, false)], MeetingState::NoMeeting);
    let matches = b.match_members_to_players(&vec![member(77, "x")], &observed).unwrap();
    assert!(matches[0].is_some());
}

#[test]
fn ident_errors() {
    let mut b = bot();
    assert!(matches!(b.ident_player(5, Vec::new()), IdentReply::MissingArgument));
    assert!(matches!(
        b.ident_player(5, vec![String::from("<@77>"), String::from("Blue")]),
        IdentReply::OnlyOwners
    ));
    assert!(matches!(b.ident_player(OWNER, vec![String::from("<@77>")]), IdentReply::MissingName));
}

#[test]
fn ident_parsed_uses_given_mention() {
    let mut b = bot();
    match b.ident_parsed(OWNER, vec![String::from("anything"), String::from("Pink")], Some(9)) {
        IdentReply::SetFor { target, name } => {
            assert_eq!(target, 9);
            assert_eq!(name, "Pink");
        }
        _ => panic!("expected the mentioned user's name to be set"),
    }
}

#[test]
fn commands_stop_and_check() {
    let mut b = bot();
    assert!(matches!(b.handle_command(OWNER, Command::Stop, Vec::new(), &None), Reply::Stop { shutdown: true }));
    assert!(matches!(b.handle_command(5, Command::Stop, Vec::new(), &None), Reply::Stop { shutdown: false }));
    assert!(matches!(
        b.handle_command(5, Command::Check, Vec::new(), &None),
        Reply::Check(MatchReport::NoRoster)
    ));
    assert!(matches!(
        b.handle_command(5, Command::Ident(vec![String::from("Red")]), Vec::new(), &None),
        Reply::Ident(IdentReply::SetOwn { .. })
    ));
}

#[test]
fn bot_batch_notifies_broadcast_channel() {
    let b = bot();
    let results: Vec<Result<u8, &str>> = vec![Err("a"), Ok(1), Err("b")];
    let report = b.batch(&results);
    assert_eq!(report.failed, vec![0, 2]);
    assert_eq!(report.applied, vec![1]);
    assert_eq!(report.notify, Some(BROADCAST));
    let none: Vec<Result<u8, &str>> = Vec::new();
    assert_eq!(b.batch(&none).notify, None);
}

#[test]
fn end_game_skips_spectators() {
    let b = bot();
    let mut spectator = member(8, "s");
    spectator.roles = vec![SPECTATOR];
    let plan = b.end_game(vec![member(1, "a"), spectator], vec![member(2, "b")]);
    assert_eq!(plan, vec![mute(1, false), moved(2, LIVING, None)]);
}
