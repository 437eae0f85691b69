use ini::Ini;
use moujin::config::{player_message_id, record_player_message};
use moujin::interaction::{ChannelRef, OptionValue, ResponseKind};
use moujin::player::{
    press_button, ButtonPress, QueueCommand, player_buttons, ButtonStyle, is_active, player_update, status_text, PlayMode, PlayerError,
    TrackMeta,
};
use moujin::voice::{
    join_voice, joined_message, joined_outcome, play, JoinOutcome, stop, JoinPlan, PlayAction, PlayEvent, PlayState, StopAction,
    StopEvent, StopState, TrackEndNotifier, TrackEndOutcome,
};

fn track(title: &str) -> TrackMeta {
    TrackMeta {
        title: Some(title.to_string()),
        thumbnail: Some(format!("https://img/{}.jpg", title)),
        source_url: Some(format!("https://youtu.be/{}", title)),
        channel: Some("Some Channel".to_string()),
    }
}

fn edit_text(a: &PlayAction) -> &str {
    match a {
        PlayAction::EditResponse(s) => s.as_str(),
        _ => panic!("expected an edit"),
    }
}

#[test]
fn join_a_channel() {
    let option = OptionValue::Channel(ChannelRef { id: 55, name: Some("Lounge".to_string()) });
    match join_voice(&option) {
        JoinPlan::Join { channel, name } => {
            assert_eq!(channel, 55);
            assert_eq!(name.as_deref(), Some("Lounge"));
        }
        JoinPlan::Reject(_) => panic!("expected to join"),
    }
    let m = joined_message("Lounge");
    assert_eq!(m.kind, ResponseKind::ChannelMessageWithSource);
    assert_eq!(m.title, "Joined");
    assert_eq!(m.content, "Joined `Lounge`.");
}

#[test]
fn join_rejects_other_options() {
    match join_voice(&OptionValue::Text("Lounge".to_string())) {
        JoinPlan::Reject(r) => {
            assert_eq!(r.kind, ResponseKind::ChannelMessageWithSource);
            assert_eq!(r.content, "Wtf did you send me...");
        }
        JoinPlan::Join { .. } => panic!("expected a rejection"),
    }
}

#[test]
fn status_names_and_activity() {
    assert_eq!(status_text(PlayMode::Play), "Play");
    assert_eq!(status_text(PlayMode::Pause), "Pause");
    assert_eq!(status_text(PlayMode::Stop), "Stop");
    assert_eq!(status_text(PlayMode::End), "End");
    assert!(is_active(PlayMode::Play));
    assert!(is_active(PlayMode::Pause));
    assert!(!is_active(PlayMode::Stop));
    assert!(!is_active(PlayMode::End));
}

#[test]
fn play_rejects_non_http_urls() {
    let (state, actions) = play(PlayState::Start, PlayEvent::Invoked { option: OptionValue::Text("www.youtube.com".to_string()) });
    assert!(matches!(state, PlayState::Finished));
    assert_eq!(actions.len(), 2);
    match &actions[0] {
        PlayAction::Respond(r) => assert_eq!(r.content, "Adding the song to the queue ..."),
        _ => panic!("expected a response"),
    }
    assert_eq!(edit_text(&actions[1]), "URL must be `http<rest of the url>`");
}

#[test]
fn play_rejects_non_string_options() {
    let (state, actions) = play(PlayState::Start, PlayEvent::Invoked { option: OptionValue::Other });
    assert!(matches!(state, PlayState::Finished));
    assert_eq!(edit_text(&actions[1]), "Wtf did you send me...");
}

#[test]
fn play_outside_voice_channel() {
    let (state, _) = play(PlayState::Start, PlayEvent::Invoked { option: OptionValue::Text("https://youtu.be/a".to_string()) });
    let (state, actions) = play(state, PlayEvent::HandlerChecked { in_voice: false });
    assert!(matches!(state, PlayState::Finished));
    assert_eq!(edit_text(&actions[0]), "Not in a voice channel, try `/join <channel's name>` before adding a song to queue.");
}

#[test]
fn play_source_error() {
    let (state, _) = play(PlayState::Start, PlayEvent::Invoked { option: OptionValue::Text("https://youtu.be/a".to_string()) });
    let (state, _) = play(state, PlayEvent::HandlerChecked { in_voice: true });
    let (state, actions) = play(state, PlayEvent::SourceLoaded { loaded: false, current: None });
    assert!(matches!(state, PlayState::Finished));
    assert_eq!(edit_text(&actions[0]), "Error trying to add the song to queue.");
}

#[test]
fn first_play_posts_and_records_the_player() {
    let url = "https://youtu.be/first";
    let (state, actions) = play(PlayState::Start, PlayEvent::Invoked { option: OptionValue::Text(url.to_string()) });
    assert!(matches!(actions[1], PlayAction::FindHandler));
    let (state, actions) = play(state, PlayEvent::HandlerChecked { in_voice: true });
    match &actions[0] {
        PlayAction::LoadSource(u) => assert_eq!(u, url),
        _ => panic!("expected a source to load"),
    }
    let (state, actions) = play(state, PlayEvent::SourceLoaded { loaded: true, current: None });
    assert!(matches!(actions[0], PlayAction::Enqueue));
    let (state, actions) = play(state, PlayEvent::QueueReady { guild: 9, queue: vec![track("first")], config: Ini::new() });
    match &actions[0] {
        PlayAction::PostPlayer { content, embed: e, buttons } => {
            assert_eq!(content, "");
            assert_eq!(buttons.len(), 3);
            assert_eq!(buttons[0].label, "Pause / Play");
            assert_eq!(buttons[0].custom_id, "pause");
            assert_eq!(buttons[0].style, ButtonStyle::Success);
            assert_eq!(buttons[1].label, "Skip");
            assert_eq!(buttons[1].custom_id, "skip");
            assert_eq!(buttons[1].style, ButtonStyle::Primary);
            assert_eq!(buttons[2].label, "Stop");
            assert_eq!(buttons[2].custom_id, "stop");
            assert_eq!(buttons[2].style, ButtonStyle::Danger);
            assert_eq!(e.title, "Moujin Player");
            assert_eq!(e.description, "first");
            assert_eq!(e.image, "https://img/first.jpg");
            assert_eq!(e.url, "https://youtu.be/first");
            assert_eq!(e.channel, "Some Channel");
            assert_eq!(e.status, "Stop");
            assert!(e.coming_next.is_none());
        }
        _ => panic!("expected a new player"),
    }
    let (state, actions) = play(state, PlayEvent::PlayerPosted { message_id: 4242 });
    assert!(matches!(state, PlayState::Finished));
    assert_eq!(actions.len(), 2);
    match &actions[0] {
        PlayAction::SaveConfig(c) => assert_eq!(player_message_id(c, 9), Ok(4242)),
        _ => panic!("expected the configuration to save"),
    }
    assert!(matches!(actions[1], PlayAction::WatchTrackEnd { guild: 9 }));
}

#[test]
fn play_while_playing_updates_the_player() {
    let mut config = Ini::new();
    record_player_message(&mut config, 9, 4242);
    let (state, _) = play(PlayState::Start, PlayEvent::Invoked { option: OptionValue::Text("http://x".to_string()) });
    let (state, _) = play(state, PlayEvent::HandlerChecked { in_voice: true });
    let (state, _) = play(state, PlayEvent::SourceLoaded { loaded: true, current: Some(PlayMode::Play) });
    let queue = vec![track("first"), track("second"), track("third")];
    let (state, actions) = play(state, PlayEvent::QueueReady { guild: 9, queue, config });
    assert!(matches!(state, PlayState::Finished));
    assert_eq!(actions.len(), 2);
    match &actions[0] {
        PlayAction::EditPlayer(u) => {
            assert_eq!(u.message_id, 4242);
            assert_eq!(u.content, "`third` added to the queue");
            assert_eq!(u.embed.description, "first");
            assert_eq!(u.embed.status, "Play");
            assert_eq!(u.embed.coming_next.as_deref(), Some("second"));
        }
        _ => panic!("expected an edit of the player"),
    }
    assert!(matches!(actions[1], PlayAction::DeleteResponse));
}

#[test]
fn play_while_paused_without_recorded_player_fails() {
    let (state, _) = play(PlayState::Start, PlayEvent::Invoked { option: OptionValue::Text("http://x".to_string()) });
    let (state, _) = play(state, PlayEvent::HandlerChecked { in_voice: true });
    let (state, _) = play(state, PlayEvent::SourceLoaded { loaded: true, current: Some(PlayMode::Pause) });
    let (_, actions) = play(state, PlayEvent::QueueReady { guild: 1, queue: vec![track("a"), track("b")], config: Ini::new() });
    assert!(matches!(actions[0], PlayAction::Fail(PlayerError::NotRecorded)));
}

#[test]
fn play_with_incomplete_track_fails() {
    let (state, _) = play(PlayState::Start, PlayEvent::Invoked { option: OptionValue::Text("http://x".to_string()) });
    let (state, _) = play(state, PlayEvent::HandlerChecked { in_voice: true });
    let (state, _) = play(state, PlayEvent::SourceLoaded { loaded: true, current: Some(PlayMode::End) });
    let mut t = track("a");
    t.thumbnail = None;
    let (_, actions) = play(state, PlayEvent::QueueReady { guild: 1, queue: vec![t], config: Ini::new() });
    assert!(matches!(actions[0], PlayAction::Fail(PlayerError::MissingMetadata)));
}

#[test]
fn play_ignores_events_out_of_order() {
    let (state, actions) = play(PlayState::Start, PlayEvent::PlayerPosted { message_id: 1 });
    assert!(matches!(state, PlayState::Start));
    assert!(actions.is_empty());
    let (state, actions) = play(PlayState::Finished, PlayEvent::HandlerChecked { in_voice: true });
    assert!(matches!(state, PlayState::Finished));
    assert!(actions.is_empty());
}

#[test]
fn player_update_errors() {
    let mut config = Ini::new();
    record_player_message(&mut config, 3, 30);
    assert!(matches!(player_update(&config, 3, &vec![], PlayMode::Play), Err(PlayerError::MissingTrack)));
    let single = player_update(&config, 3, &vec![track("only")], PlayMode::Play).unwrap();
    assert_eq!(single.message_id, 30);
    assert_eq!(single.content, "`only` added to the queue");
    assert!(single.embed.coming_next.is_none());
    let mut untitled = track("next");
    untitled.title = None;
    assert!(matches!(player_update(&config, 3, &vec![track("a"), untitled], PlayMode::Play), Err(PlayerError::MissingMetadata)));
    assert!(matches!(player_update(&config, 4, &vec![track("a"), track("b")], PlayMode::Play), Err(PlayerError::NotRecorded)));
    config.set_to(Some("3"), "command_id".to_string(), "x1".to_string());
    assert!(matches!(player_update(&config, 3, &vec![track("a"), track("b")], PlayMode::Play), Err(PlayerError::InvalidId)));
}

#[test]
fn stop_deletes_the_player_that_play_posted() {
    let (state, _) = play(PlayState::Start, PlayEvent::Invoked { option: OptionValue::Text("http://x".to_string()) });
    let (state, _) = play(state, PlayEvent::HandlerChecked { in_voice: true });
    let (state, _) = play(state, PlayEvent::SourceLoaded { loaded: true, current: None });
    let (state, _) = play(state, PlayEvent::QueueReady { guild: 77, queue: vec![track("a")], config: Ini::new() });
    let (_, actions) = play(state, PlayEvent::PlayerPosted { message_id: 31337 });
    let saved = match actions.into_iter().next() {
        Some(PlayAction::SaveConfig(c)) => c,
        _ => panic!("expected the configuration to save"),
    };
    let (s, actions) = stop(StopState::Start, StopEvent::Invoked);
    assert_eq!(s, StopState::AwaitingHandler);
    match &actions[0] {
        StopAction::Respond(r) => assert_eq!(r.content, "Stopping music..."),
        _ => panic!("expected a response"),
    }
    assert!(matches!(actions[1], StopAction::FindHandler));
    let (s, actions) = stop(s, StopEvent::HandlerChecked { in_voice: true });
    assert_eq!(s, StopState::AwaitingConfig);
    assert!(matches!(actions[0], StopAction::StopQueue));
    assert!(matches!(actions[1], StopAction::Leave));
    let (s, actions) = stop(s, StopEvent::ConfigLoaded { guild: 77, config: saved });
    assert_eq!(s, StopState::Finished);
    assert!(matches!(actions[0], StopAction::DeleteMessage(31337)));
    match &actions[1] {
        StopAction::EditResponse(t) => assert_eq!(t, "Music player stopped."),
        _ => panic!("expected an edit"),
    }
}

#[test]
fn stop_outside_voice_channel() {
    let (s, _) = stop(StopState::Start, StopEvent::Invoked);
    let (s, actions) = stop(s, StopEvent::HandlerChecked { in_voice: false });
    assert_eq!(s, StopState::Finished);
    match &actions[0] {
        StopAction::EditResponse(t) => assert_eq!(t, "Not in a voice channel, try `/join <channel's name>` before stopping the player."),
        _ => panic!("expected an edit"),
    }
}

#[test]
fn stop_without_recorded_player_fails() {
    let (_, actions) = stop(StopState::AwaitingConfig, StopEvent::ConfigLoaded { guild: 1, config: Ini::new() });
    assert!(matches!(actions[0], StopAction::Fail(PlayerError::NotRecorded)));
    let (s, actions) = stop(StopState::Finished, StopEvent::Invoked);
    assert_eq!(s, StopState::Finished);
    assert!(actions.is_empty());
}

fn refreshed(o: Result<TrackEndOutcome, PlayerError>) -> moujin::player::PlayerUpdate {
    match o {
        Ok(TrackEndOutcome::Refresh(u)) => u,
        _ => panic!("expected a refresh"),
    }
}

#[test]
fn track_end_refreshes_the_player() {
    let mut config = Ini::new();
    record_player_message(&mut config, 8, 800);
    let n = TrackEndNotifier { guild_id: 8, chan_id: 80 };
    let update = refreshed(n.act(&config, &vec![track("now"), track("later")], None));
    assert_eq!(update.message_id, 800);
    assert_eq!(update.content, "`later` added to the queue");
    assert_eq!(update.embed.description, "now");
    assert_eq!(update.embed.status, "Stop");
    assert_eq!(update.embed.coming_next.as_deref(), Some("later"));
    let update = refreshed(n.act(&config, &vec![track("now"), track("later")], Some(PlayMode::Play)));
    assert_eq!(update.embed.status, "Play");
    let update = refreshed(n.act(&config, &vec![track("last")], Some(PlayMode::Play)));
    assert!(update.embed.coming_next.is_none());
}

#[test]
fn track_end_removes_the_player_when_the_queue_is_over() {
    let mut config = Ini::new();
    record_player_message(&mut config, 8, 800);
    let n = TrackEndNotifier { guild_id: 8, chan_id: 80 };
    assert!(matches!(n.act(&config, &vec![], None), Ok(TrackEndOutcome::Remove(800))));
    let other = TrackEndNotifier { guild_id: 9, chan_id: 80 };
    assert!(matches!(other.act(&config, &vec![], None), Err(PlayerError::NotRecorded)));
    let mut bad = track("x");
    bad.channel = None;
    assert!(matches!(n.act(&config, &vec![bad], None), Err(PlayerError::MissingMetadata)));
}

#[test]
fn player_buttons_in_order() {
    let b = player_buttons();
    assert_eq!(b.len(), 3);
    assert_eq!((b[0].style, b[0].label.as_str(), b[0].custom_id.as_str()), (ButtonStyle::Success, "Pause / Play", "pause"));
    assert_eq!((b[1].style, b[1].label.as_str(), b[1].custom_id.as_str()), (ButtonStyle::Primary, "Skip", "skip"));
    assert_eq!((b[2].style, b[2].label.as_str(), b[2].custom_id.as_str()), (ButtonStyle::Danger, "Stop", "stop"));
}

#[test]
fn join_outcome_follows_the_join() {
    assert!(matches!(joined_outcome(false, &Some("Lounge".to_string())), JoinOutcome::Silent));
    assert!(matches!(joined_outcome(false, &None), JoinOutcome::Silent));
    assert!(matches!(joined_outcome(true, &None), JoinOutcome::Fail));
    match joined_outcome(true, &Some("Lounge".to_string())) {
        JoinOutcome::Announce(m) => {
            assert_eq!(m.kind, ResponseKind::ChannelMessageWithSource);
            assert_eq!(m.title, "Joined");
            assert_eq!(m.content, "Joined `Lounge`.");
        }
        _ => panic!("expected the joined message"),
    }
}

#[test]
fn player_buttons_act_on_the_queue() {
    assert_eq!(press_button(ButtonPress::TogglePause, true, Some(PlayMode::Play)).command, QueueCommand::Pause);
    assert_eq!(press_button(ButtonPress::TogglePause, true, Some(PlayMode::Pause)).command, QueueCommand::Resume);
    assert_eq!(press_button(ButtonPress::TogglePause, true, Some(PlayMode::End)).command, QueueCommand::Nothing);
    assert_eq!(press_button(ButtonPress::TogglePause, true, None).command, QueueCommand::Nothing);
    assert_eq!(press_button(ButtonPress::Skip, true, Some(PlayMode::Play)).command, QueueCommand::Skip);
    assert_eq!(press_button(ButtonPress::Stop, true, None).command, QueueCommand::Stop);
    assert_eq!(press_button(ButtonPress::Skip, false, Some(PlayMode::Play)).command, QueueCommand::Nothing);
    let r = press_button(ButtonPress::Stop, true, None).reply;
    assert_eq!(r.kind, ResponseKind::DeferredUpdateMessage);
    assert_eq!(r.content, "");
}

#[test]
fn pause_button_twice_comes_back() {
    let first = press_button(ButtonPress::TogglePause, true, Some(PlayMode::Play)).command;
    assert_eq!(first, QueueCommand::Pause);
    let second = press_button(ButtonPress::TogglePause, true, Some(PlayMode::Pause)).command;
    assert_eq!(second, QueueCommand::Resume);
}
