//! The voice commands: joining a channel, queueing music, stopping the
//! player, and refreshing the player when a track ends.
use vstd::prelude::*;
use ini::Ini;
use crate::config;
use crate::config::record_player_message;
use crate::interaction::{
    reply_view, InteractionReply, InteractionReplyView, OptionValue, ResponseKind,
};
use crate::player;
use crate::player::{
    is_active, is_complete, player_buttons, player_embed, player_update, PlayMode, PlayerButton,
    PlayerButtonView, PlayerEmbed, PlayerEmbedView, PlayerError, PlayerUpdate, PlayerUpdateView,
    TrackMeta, TrackMetaView,
};
use crate::text;
use crate::text::has_prefix;

verus! {

// ---------------------------------------------------------------- /join

/// What `/join` does with its option.
pub enum JoinPlan {
    /// Join the voice channel `channel`, named `name`.
    Join { channel: u64, name: Option<String> },
    /// The option is no channel: answer with this reply.
    Reject(InteractionReply),
}

/// The message posted once the bot joined a channel.
pub struct JoinedMessage {
    pub kind: ResponseKind,
    pub title: String,
    pub content: String,
}

/// The answer to a command whose option has the wrong kind.
pub open spec fn wrong_option_text() -> Seq<char> {
    "Wtf did you send me..."@
}

/// Decides `/join`: a channel option is joined, anything else is answered
/// with a complaint.
pub fn join_voice(option: &OptionValue) -> (r: JoinPlan)
    ensures
        match option@ {
            crate::interaction::OptionValueView::Channel(id, name) => r matches JoinPlan::Join {
                channel,
                name: n,
            } && channel == id && player::opt_view(n) == name,
            _ => r matches JoinPlan::Reject(reply) && reply@ == reply_view(
                ResponseKind::ChannelMessageWithSource,
                wrong_option_text(),
            ),
        },
{
    match option {
        OptionValue::Channel(c) => JoinPlan::Join {
            channel: c.id,
            name: match &c.name {
                Some(n) => Some(n.clone()),
                None => None,
            },
        },
        _ => JoinPlan::Reject(
            InteractionReply {
                kind: ResponseKind::ChannelMessageWithSource,
                content: String::from_str("Wtf did you send me..."),
            },
        ),
    }
}

/// The message posted once the bot joined the channel named `channel_name`.
pub fn joined_message(channel_name: &str) -> (m: JoinedMessage)
    ensures
        m.kind == ResponseKind::ChannelMessageWithSource,
        m.title@ == "Joined"@,
        m.content@ == joined_text(channel_name@),
{
    let mut content = String::from_str("Joined `");
    content.append(channel_name);
    content.append("`.");
    JoinedMessage {
        kind: ResponseKind::ChannelMessageWithSource,
        title: String::from_str("Joined"),
        content,
    }
}

/// The text of the message posted once the bot joined the channel `name`.
pub open spec fn joined_text(name: Seq<char>) -> Seq<char> {
    "Joined `"@ + name + "`."@
}

/// What follows an attempt to join a voice channel.
pub enum JoinOutcome {
    /// The join failed: nothing is answered.
    Silent,
    /// The join succeeded: post this message.
    Announce(JoinedMessage),
    /// The join succeeded but the channel has no name to announce.
    Fail,
}

/// Decides what follows a join: nothing when it failed, else the message
/// naming the channel, or a failure when the channel came without a name.
pub fn joined_outcome(joined: bool, name: &Option<String>) -> (r: JoinOutcome)
    ensures
        !joined ==> r is Silent,
        joined && name.is_none() ==> r is Fail,
        joined && name.is_some() ==> (r matches JoinOutcome::Announce(m) && m.kind
            == ResponseKind::ChannelMessageWithSource && m.title@ == "Joined"@ && m.content@
            == joined_text(name.unwrap()@)),
{
    if !joined {
        JoinOutcome::Silent
    } else {
        match name {
            Some(n) => JoinOutcome::Announce(joined_message(n.as_str())),
            None => JoinOutcome::Fail,
        }
    }
}

// ---------------------------------------------------------------- /play

/// Where `/play` stands.
pub enum PlayState {
    /// Nothing done yet.
    Start,
    /// The url passed; waiting to know whether the bot is in a voice channel.
    AwaitingHandler { url: String },
    /// The source is being loaded.
    AwaitingSource,
    /// The source was queued while the queue had status `status`; waiting
    /// for the queue and the configuration.
    AwaitingQueue { status: PlayMode },
    /// A new player was posted; waiting for its message id.
    AwaitingPlayerMessage { guild: u64, config: Ini },
    /// Done.
    Finished,
}

/// What the program around reports to `/play`.
pub enum PlayEvent {
    /// The command came with this option.
    Invoked { option: OptionValue },
    /// Whether the bot is in a voice channel of the guild.
    HandlerChecked { in_voice: bool },
    /// Whether the source loaded, and the status of the current track, if any.
    SourceLoaded { loaded: bool, current: Option<PlayMode> },
    /// The queue after queueing (current track first) and the configuration.
    QueueReady { guild: u64, queue: Vec<TrackMeta>, config: Ini },
    /// The id of the posted player message.
    PlayerPosted { message_id: u64 },
}

/// What `/play` asks the program around to do, in order.
pub enum PlayAction {
    /// Answer the interaction.
    Respond(InteractionReply),
    /// Replace the text of the answer.
    EditResponse(String),
    /// Find the voice handler of the guild, then report `HandlerChecked`.
    FindHandler,
    /// Load the source at this url, then report `SourceLoaded`.
    LoadSource(String),
    /// Queue the loaded source, then report `QueueReady`.
    Enqueue,
    /// Edit the player message already posted.
    EditPlayer(PlayerUpdate),
    /// Delete the answer.
    DeleteResponse,
    /// Turn the answer into the player message: its text replaced by
    /// `content`, with this embed and these buttons in one row, then report
    /// `PlayerPosted`.
    PostPlayer { content: String, embed: PlayerEmbed, buttons: Vec<PlayerButton> },
    /// Write this configuration back.
    SaveConfig(Ini),
    /// Refresh the player of this guild whenever a track ends.
    WatchTrackEnd { guild: u64 },
    /// Give up: the player cannot be shown.
    Fail(PlayerError),
}

pub enum PlayStateView {
    Start,
    AwaitingHandler { url: Seq<char> },
    AwaitingSource,
    AwaitingQueue { status: PlayMode },
    AwaitingPlayerMessage { guild: u64, entries: Map<(Seq<char>, Seq<char>), Seq<char>> },
    Finished,
}

pub enum PlayEventView {
    Invoked { option: crate::interaction::OptionValueView },
    HandlerChecked { in_voice: bool },
    SourceLoaded { loaded: bool, current: Option<PlayMode> },
    QueueReady {
        guild: u64,
        queue: Seq<TrackMetaView>,
        entries: Map<(Seq<char>, Seq<char>), Seq<char>>,
    },
    PlayerPosted { message_id: u64 },
}

pub enum PlayActionView {
    Respond(InteractionReplyView),
    EditResponse(Seq<char>),
    FindHandler,
    LoadSource(Seq<char>),
    Enqueue,
    EditPlayer(PlayerUpdateView),
    DeleteResponse,
    PostPlayer { content: Seq<char>, embed: PlayerEmbedView, buttons: Seq<PlayerButtonView> },
    SaveConfig(Map<(Seq<char>, Seq<char>), Seq<char>>),
    WatchTrackEnd { guild: u64 },
    Fail(PlayerError),
}

impl View for PlayState {
    type V = PlayStateView;

    open spec fn view(&self) -> PlayStateView {
        match self {
            PlayState::Start => PlayStateView::Start,
            PlayState::AwaitingHandler { url } => PlayStateView::AwaitingHandler { url: url@ },
            PlayState::AwaitingSource => PlayStateView::AwaitingSource,
            PlayState::AwaitingQueue { status } => PlayStateView::AwaitingQueue { status: *status },
            PlayState::AwaitingPlayerMessage { guild, config } => PlayStateView::AwaitingPlayerMessage {
                guild: *guild,
                entries: config::ini_entries(*config),
            },
            PlayState::Finished => PlayStateView::Finished,
        }
    }
}

impl View for PlayEvent {
    type V = PlayEventView;

    open spec fn view(&self) -> PlayEventView {
        match self {
            PlayEvent::Invoked { option } => PlayEventView::Invoked { option: option@ },
            PlayEvent::HandlerChecked { in_voice } => PlayEventView::HandlerChecked {
                in_voice: *in_voice,
            },
            PlayEvent::SourceLoaded { loaded, current } => PlayEventView::SourceLoaded {
                loaded: *loaded,
                current: *current,
            },
            PlayEvent::QueueReady { guild, queue, config } => PlayEventView::QueueReady {
                guild: *guild,
                queue: queue@.map_values(|t: TrackMeta| t@),
                entries: config::ini_entries(*config),
            },
            PlayEvent::PlayerPosted { message_id } => PlayEventView::PlayerPosted {
                message_id: *message_id,
            },
        }
    }
}

impl View for PlayAction {
    type V = PlayActionView;

    open spec fn view(&self) -> PlayActionView {
        match self {
            PlayAction::Respond(r) => PlayActionView::Respond(r@),
            PlayAction::EditResponse(s) => PlayActionView::EditResponse(s@),
            PlayAction::FindHandler => PlayActionView::FindHandler,
            PlayAction::LoadSource(s) => PlayActionView::LoadSource(s@),
            PlayAction::Enqueue => PlayActionView::Enqueue,
            PlayAction::EditPlayer(u) => PlayActionView::EditPlayer(u@),
            PlayAction::DeleteResponse => PlayActionView::DeleteResponse,
            PlayAction::PostPlayer { content, embed, buttons } => PlayActionView::PostPlayer {
                content: content@,
                embed: embed@,
                buttons: buttons@.map_values(|b: PlayerButton| b@),
            },
            PlayAction::SaveConfig(c) => PlayActionView::SaveConfig(config::ini_entries(*c)),
            PlayAction::WatchTrackEnd { guild } => PlayActionView::WatchTrackEnd { guild: *guild },
            PlayAction::Fail(e) => PlayActionView::Fail(*e),
        }
    }
}

/// The views of a list of actions.
pub open spec fn play_actions_view(v: Seq<PlayAction>) -> Seq<PlayActionView> {
    v.map_values(|a: PlayAction| a@)
}

pub open spec fn adding_reply() -> InteractionReplyView {
    reply_view(ResponseKind::ChannelMessageWithSource, "Adding the song to the queue ..."@)
}

pub open spec fn url_rule_text() -> Seq<char> {
    "URL must be `http<rest of the url>`"@
}

pub open spec fn play_not_in_voice_text() -> Seq<char> {
    "Not in a voice channel, try `/join <channel's name>` before adding a song to queue."@
}

pub open spec fn source_error_text() -> Seq<char> {
    "Error trying to add the song to queue."@
}

/// What `/play` does on `event` in `state`: the next state and the actions
/// to take, in order. An event that does not fit the state changes nothing.
pub open spec fn play_next(state: PlayStateView, event: PlayEventView) -> (
    PlayStateView,
    Seq<PlayActionView>,
) {
    match (state, event) {
        (PlayStateView::Start, PlayEventView::Invoked { option }) => {
            let respond = PlayActionView::Respond(adding_reply());
            match option {
                crate::interaction::OptionValueView::Text(url) => if text::starts_with(url, "http"@) {
                    (
                        PlayStateView::AwaitingHandler { url },
                        seq![respond, PlayActionView::FindHandler],
                    )
                } else {
                    (
                        PlayStateView::Finished,
                        seq![respond, PlayActionView::EditResponse(url_rule_text())],
                    )
                },
                _ => (
                    PlayStateView::Finished,
                    seq![respond, PlayActionView::EditResponse(wrong_option_text())],
                ),
            }
        },
        (PlayStateView::AwaitingHandler { url }, PlayEventView::HandlerChecked { in_voice }) => {
            if in_voice {
                (PlayStateView::AwaitingSource, seq![PlayActionView::LoadSource(url)])
            } else {
                (
                    PlayStateView::Finished,
                    seq![PlayActionView::EditResponse(play_not_in_voice_text())],
                )
            }
        },
        (PlayStateView::AwaitingSource, PlayEventView::SourceLoaded { loaded, current }) => {
            if loaded {
                (
                    PlayStateView::AwaitingQueue { status: player::queue_status(current) },
                    seq![PlayActionView::Enqueue],
                )
            } else {
                (PlayStateView::Finished, seq![PlayActionView::EditResponse(source_error_text())])
            }
        },
        (
            PlayStateView::AwaitingQueue { status },
            PlayEventView::QueueReady { guild, queue, entries },
        ) => {
            if player::active(status) {
                match player::update_of(entries, guild, queue, status) {
                    Ok(u) => (
                        PlayStateView::Finished,
                        seq![PlayActionView::EditPlayer(u), PlayActionView::DeleteResponse],
                    ),
                    Err(e) => (PlayStateView::Finished, seq![PlayActionView::Fail(e)]),
                }
            } else if queue.len() == 0 {
                (PlayStateView::Finished, seq![PlayActionView::Fail(PlayerError::MissingTrack)])
            } else if !player::meta_complete(queue[0]) {
                (PlayStateView::Finished, seq![PlayActionView::Fail(PlayerError::MissingMetadata)])
            } else {
                (
                    PlayStateView::AwaitingPlayerMessage { guild, entries },
                    seq![
                        PlayActionView::PostPlayer {
                            content: Seq::empty(),
                            embed: player::embed_of(queue[0], status, None),
                            buttons: player::buttons_of(),
                        },
                    ],
                )
            }
        },
        (
            PlayStateView::AwaitingPlayerMessage { guild, entries },
            PlayEventView::PlayerPosted { message_id },
        ) => (
            PlayStateView::Finished,
            seq![
                PlayActionView::SaveConfig(config::with_player(entries, guild, message_id)),
                PlayActionView::WatchTrackEnd { guild },
            ],
        ),
        _ => (state, Seq::empty()),
    }
}

/// Takes one step of `/play`: from the state and what was reported, the
/// next state and the actions to take, in order.
pub fn play(state: PlayState, event: PlayEvent) -> (r: (PlayState, Vec<PlayAction>))
    ensures
        (r.0@, play_actions_view(r.1@)) == play_next(state@, event@),
{
    let ghost s = state@;
    let ghost e = event@;
    let mut actions: Vec<PlayAction> = Vec::new();
    match (state, event) {
        (PlayState::Start, PlayEvent::Invoked { option }) => {
            actions.push(
                PlayAction::Respond(
                    InteractionReply {
                        kind: ResponseKind::ChannelMessageWithSource,
                        content: String::from_str("Adding the song to the queue ..."),
                    },
                ),
            );
            match option {
                OptionValue::Text(url) => {
                    if has_prefix(url.as_str(), "http") {
                        actions.push(PlayAction::FindHandler);
                        assert(play_actions_view(actions@) =~= play_next(s, e).1);
                        (PlayState::AwaitingHandler { url }, actions)
                    } else {
                        actions.push(
                            PlayAction::EditResponse(
                                String::from_str("URL must be `http<rest of the url>`"),
                            ),
                        );
                        assert(play_actions_view(actions@) =~= play_next(s, e).1);
                        (PlayState::Finished, actions)
                    }
                },
                _ => {
                    actions.push(
                        PlayAction::EditResponse(String::from_str("Wtf did you send me...")),
                    );
                    assert(play_actions_view(actions@) =~= play_next(s, e).1);
                    (PlayState::Finished, actions)
                },
            }
        },
        (PlayState::AwaitingHandler { url }, PlayEvent::HandlerChecked { in_voice }) => {
            if in_voice {
                actions.push(PlayAction::LoadSource(url));
                assert(play_actions_view(actions@) =~= play_next(s, e).1);
                (PlayState::AwaitingSource, actions)
            } else {
                actions.push(
                    PlayAction::EditResponse(
                        String::from_str(
                            "Not in a voice channel, try `/join <channel's name>` before adding a song to queue.",
                        ),
                    ),
                );
                assert(play_actions_view(actions@) =~= play_next(s, e).1);
                (PlayState::Finished, actions)
            }
        },
        (PlayState::AwaitingSource, PlayEvent::SourceLoaded { loaded, current }) => {
            if loaded {
                let status = match current {
                    Some(m) => m,
                    None => PlayMode::Stop,
                };
                actions.push(PlayAction::Enqueue);
                assert(play_actions_view(actions@) =~= play_next(s, e).1);
                (PlayState::AwaitingQueue { status }, actions)
            } else {
                actions.push(
                    PlayAction::EditResponse(
                        String::from_str("Error trying to add the song to queue."),
                    ),
                );
                assert(play_actions_view(actions@) =~= play_next(s, e).1);
                (PlayState::Finished, actions)
            }
        },
        (PlayState::AwaitingQueue { status }, PlayEvent::QueueReady { guild, queue, config }) => {
            let ghost q = queue@.map_values(|t: TrackMeta| t@);
            if is_active(status) {
                match player_update(&config, guild, &queue, status) {
                    Ok(u) => {
                        actions.push(PlayAction::EditPlayer(u));
                        actions.push(PlayAction::DeleteResponse);
                    },
                    Err(err) => {
                        actions.push(PlayAction::Fail(err));
                    },
                }
                assert(play_actions_view(actions@) =~= play_next(s, e).1);
                (PlayState::Finished, actions)
            } else if queue.len() == 0 {
                actions.push(PlayAction::Fail(PlayerError::MissingTrack));
                assert(play_actions_view(actions@) =~= play_next(s, e).1);
                (PlayState::Finished, actions)
            } else {
                let current = &queue[0];
                assert(q[0] == current@);
                if !is_complete(current) {
                    actions.push(PlayAction::Fail(PlayerError::MissingMetadata));
                    assert(play_actions_view(actions@) =~= play_next(s, e).1);
                    (PlayState::Finished, actions)
                } else {
                    actions.push(
                        PlayAction::PostPlayer {
                            content: String::new(),
                            embed: player_embed(current, status, None),
                            buttons: player_buttons(),
                        },
                    );
                    assert(play_actions_view(actions@) =~= play_next(s, e).1);
                    (PlayState::AwaitingPlayerMessage { guild, config }, actions)
                }
            }
        },
        (
            PlayState::AwaitingPlayerMessage { guild, config },
            PlayEvent::PlayerPosted { message_id },
        ) => {
            let mut config = config;
            record_player_message(&mut config, guild, message_id);
            actions.push(PlayAction::SaveConfig(config));
            actions.push(PlayAction::WatchTrackEnd { guild });
            assert(play_actions_view(actions@) =~= play_next(s, e).1);
            (PlayState::Finished, actions)
        },
        (state, _) => {
            assert(play_actions_view(actions@) =~= Seq::<PlayActionView>::empty());
            (state, actions)
        },
    }
}


/// The outcome of a run of `/play` from `state` on `events`: the last state
/// and all the actions taken, in order.
pub open spec fn play_run(state: PlayStateView, events: Seq<PlayEventView>) -> (
    PlayStateView,
    Seq<PlayActionView>,
)
    decreases events.len(),
{
    if events.len() == 0 {
        (state, Seq::empty())
    } else {
        let first = play_next(state, events[0]);
        let rest = play_run(first.0, events.drop_first());
        (rest.0, first.1 + rest.1)
    }
}

/// The url `/play` holds starts with `http`.
pub open spec fn play_url_ok(state: PlayStateView) -> bool {
    state matches PlayStateView::AwaitingHandler { url } ==> text::starts_with(url, "http"@)
}

/// The actions only load sources whose url starts with `http`.
pub open spec fn loads_only_http(actions: Seq<PlayActionView>) -> bool {
    forall|i: int|
        0 <= i < actions.len() ==> (#[trigger] actions[i] matches PlayActionView::LoadSource(url)
            ==> text::starts_with(url, "http"@))
}

proof fn lemma_play_step_keeps_url_rule(state: PlayStateView, event: PlayEventView)
    requires
        play_url_ok(state),
    ensures
        play_url_ok(play_next(state, event).0),
        loads_only_http(play_next(state, event).1),
{
}

proof fn lemma_play_run_keeps_url_rule(state: PlayStateView, events: Seq<PlayEventView>)
    requires
        play_url_ok(state),
    ensures
        play_url_ok(play_run(state, events).0),
        loads_only_http(play_run(state, events).1),
    decreases events.len(),
{
    if events.len() > 0 {
        let first = play_next(state, events[0]);
        lemma_play_step_keeps_url_rule(state, events[0]);
        lemma_play_run_keeps_url_rule(first.0, events.drop_first());
        let rest = play_run(first.0, events.drop_first());
        assert forall|i: int|
            0 <= i < (first.1 + rest.1).len() implies (#[trigger] (first.1 + rest.1)[i] matches PlayActionView::LoadSource(url)
            ==> text::starts_with(url, "http"@)) by {
            if i < first.1.len() {
                assert((first.1 + rest.1)[i] == first.1[i]);
            } else {
                assert((first.1 + rest.1)[i] == rest.1[i - first.1.len()]);
            }
        }
    }
}

/// Whatever is reported, `/play` only ever loads a source whose url starts
/// with `http`.
pub proof fn lemma_play_loads_only_http_urls(events: Seq<PlayEventView>)
    ensures
        loads_only_http(play_run(PlayStateView::Start, events).1),
{
    lemma_play_run_keeps_url_rule(PlayStateView::Start, events);
}

/// Once `/play` is finished, nothing it is told changes anything.
pub proof fn lemma_play_finished_is_final(event: PlayEventView)
    ensures
        play_next(PlayStateView::Finished, event) == (
            PlayStateView::Finished,
            Seq::<PlayActionView>::empty(),
        ),
{
}

/// Once the source is loaded, `/play` goes on with the status the current
/// track had then (stopped when there was none).
pub proof fn lemma_play_keeps_loaded_status(current: Option<PlayMode>)
    ensures
        play_next(
            PlayStateView::AwaitingSource,
            PlayEventView::SourceLoaded { loaded: true, current },
        ).0 == (PlayStateView::AwaitingQueue {
            status: match current {
                Some(m) => m,
                None => PlayMode::Stop,
            },
        }),
{
}

/// The player that `/play` edits or posts shows the queue as it is: the
/// current track in place (title, thumbnail, address, channel) with the
/// status the queue had when the source was loaded. An edit goes to the
/// guild's recorded player and shows the next track when there is one; a
/// new player has no text, shows no next track and carries the player's
/// buttons.
pub proof fn lemma_play_player_shows_queue(
    status: PlayMode,
    guild: u64,
    queue: Seq<TrackMetaView>,
    entries: Map<(Seq<char>, Seq<char>), Seq<char>>,
)
    ensures
        forall|i: int|
            0 <= i < play_next(
                PlayStateView::AwaitingQueue { status },
                PlayEventView::QueueReady { guild, queue, entries },
            ).1.len() ==> {
                &&& (#[trigger] play_next(
                    PlayStateView::AwaitingQueue { status },
                    PlayEventView::QueueReady { guild, queue, entries },
                ).1[i] matches PlayActionView::EditPlayer(u) ==> {
                    &&& u.embed.status == player::status_name(status)
                    &&& config::recorded_player(entries, guild) == Ok::<u64, PlayerError>(
                        u.message_id,
                    )
                    &&& queue[0].title == Some(u.embed.description)
                    &&& queue[0].thumbnail == Some(u.embed.image)
                    &&& queue[0].source_url == Some(u.embed.url)
                    &&& queue[0].channel == Some(u.embed.channel)
                    &&& (queue.len() >= 2 ==> u.embed.coming_next == queue[1].title)
                })
                &&& (play_next(
                    PlayStateView::AwaitingQueue { status },
                    PlayEventView::QueueReady { guild, queue, entries },
                ).1[i] matches PlayActionView::PostPlayer { content, embed, buttons } ==> {
                    &&& embed.status == player::status_name(status)
                    &&& queue[0].title == Some(embed.description)
                    &&& queue[0].thumbnail == Some(embed.image)
                    &&& queue[0].source_url == Some(embed.url)
                    &&& queue[0].channel == Some(embed.channel)
                    &&& embed.coming_next is None
                    &&& content.len() == 0
                    &&& buttons == player::buttons_of()
                })
            },
{
    player::lemma_update_shows_current_track(entries, guild, queue, status);
}

/// `/play` posts a new player only when the queue was neither playing nor
/// paused, and edits the posted player only when it was.
pub proof fn lemma_play_one_player(state: PlayStateView, event: PlayEventView)
    ensures
        forall|i: int|
            0 <= i < play_next(state, event).1.len() ==> {
                &&& (#[trigger] play_next(state, event).1[i] matches PlayActionView::PostPlayer { .. }
                    ==> state matches PlayStateView::AwaitingQueue { status } && !player::active(
                    status,
                ))
                &&& (play_next(state, event).1[i] matches PlayActionView::EditPlayer(_)
                    ==> state matches PlayStateView::AwaitingQueue { status } && player::active(
                    status,
                ))
            },
{
}

/// The message posted as the player is the one saved as the guild's player.
pub proof fn lemma_play_records_posted_player(
    guild: u64,
    entries: Map<(Seq<char>, Seq<char>), Seq<char>>,
    message_id: u64,
)
    ensures
        play_next(
            PlayStateView::AwaitingPlayerMessage { guild, entries },
            PlayEventView::PlayerPosted { message_id },
        ).1[0] matches PlayActionView::SaveConfig(saved) && config::recorded_player(saved, guild)
            == Ok::<u64, PlayerError>(message_id),
{
    config::lemma_record_then_lookup(entries, guild, message_id);
}

// ---------------------------------------------------------------- /stop

/// Where `/stop` stands.
#[derive(Debug, Clone, Copy, PartialEq, Eq)]
pub enum StopState {
    /// Nothing done yet.
    Start,
    /// Waiting to know whether the bot is in a voice channel.
    AwaitingHandler,
    /// The music was stopped; waiting for the configuration.
    AwaitingConfig,
    /// Done.
    Finished,
}

/// What the program around reports to `/stop`.
pub enum StopEvent {
    /// The command came in.
    Invoked,
    /// Whether the bot is in a voice channel of the guild.
    HandlerChecked { in_voice: bool },
    /// The configuration, for the guild `guild`.
    ConfigLoaded { guild: u64, config: Ini },
}

/// What `/stop` asks the program around to do, in order.
pub enum StopAction {
    /// Answer the interaction.
    Respond(InteractionReply),
    /// Find the voice handler of the guild, then report `HandlerChecked`.
    FindHandler,
    /// Replace the text of the answer.
    EditResponse(String),
    /// Stop the queue.
    StopQueue,
    /// Leave the voice channel, then report `ConfigLoaded`.
    Leave,
    /// Delete the player message with this id.
    DeleteMessage(u64),
    /// Give up: the player message is not known.
    Fail(PlayerError),
}

pub enum StopEventView {
    Invoked,
    HandlerChecked { in_voice: bool },
    ConfigLoaded { guild: u64, entries: Map<(Seq<char>, Seq<char>), Seq<char>> },
}

pub enum StopActionView {
    Respond(InteractionReplyView),
    FindHandler,
    EditResponse(Seq<char>),
    StopQueue,
    Leave,
    DeleteMessage(u64),
    Fail(PlayerError),
}

impl View for StopEvent {
    type V = StopEventView;

    open spec fn view(&self) -> StopEventView {
        match self {
            StopEvent::Invoked => StopEventView::Invoked,
            StopEvent::HandlerChecked { in_voice } => StopEventView::HandlerChecked {
                in_voice: *in_voice,
            },
            StopEvent::ConfigLoaded { guild, config } => StopEventView::ConfigLoaded {
                guild: *guild,
                entries: config::ini_entries(*config),
            },
        }
    }
}

impl View for StopAction {
    type V = StopActionView;

    open spec fn view(&self) -> StopActionView {
        match self {
            StopAction::Respond(r) => StopActionView::Respond(r@),
            StopAction::FindHandler => StopActionView::FindHandler,
            StopAction::EditResponse(s) => StopActionView::EditResponse(s@),
            StopAction::StopQueue => StopActionView::StopQueue,
            StopAction::Leave => StopActionView::Leave,
            StopAction::DeleteMessage(id) => StopActionView::DeleteMessage(*id),
            StopAction::Fail(e) => StopActionView::Fail(*e),
        }
    }
}

/// The views of a list of actions.
pub open spec fn stop_actions_view(v: Seq<StopAction>) -> Seq<StopActionView> {
    v.map_values(|a: StopAction| a@)
}

pub open spec fn stopping_reply() -> InteractionReplyView {
    reply_view(ResponseKind::ChannelMessageWithSource, "Stopping music..."@)
}

pub open spec fn stop_not_in_voice_text() -> Seq<char> {
    "Not in a voice channel, try `/join <channel's name>` before stopping the player."@
}

pub open spec fn stopped_text() -> Seq<char> {
    "Music player stopped."@
}

/// What `/stop` does on `event` in `state`: the next state and the actions
/// to take, in order. An event that does not fit the state changes nothing.
pub open spec fn stop_next(state: StopState, event: StopEventView) -> (
    StopState,
    Seq<StopActionView>,
) {
    match (state, event) {
        (StopState::Start, StopEventView::Invoked) => (
            StopState::AwaitingHandler,
            seq![StopActionView::Respond(stopping_reply()), StopActionView::FindHandler],
        ),
        (StopState::AwaitingHandler, StopEventView::HandlerChecked { in_voice }) => {
            if in_voice {
                (StopState::AwaitingConfig, seq![StopActionView::StopQueue, StopActionView::Leave])
            } else {
                (StopState::Finished, seq![StopActionView::EditResponse(stop_not_in_voice_text())])
            }
        },
        (StopState::AwaitingConfig, StopEventView::ConfigLoaded { guild, entries }) => {
            match config::recorded_player(entries, guild) {
                Ok(id) => (
                    StopState::Finished,
                    seq![
                        StopActionView::DeleteMessage(id),
                        StopActionView::EditResponse(stopped_text()),
                    ],
                ),
                Err(e) => (StopState::Finished, seq![StopActionView::Fail(e)]),
            }
        },
        _ => (state, Seq::empty()),
    }
}

/// When the guild's player message is not recorded, `/stop` gives up after
/// stopping the music: it deletes nothing and does not announce the stop.
pub proof fn lemma_stop_without_player_gives_up(
    guild: u64,
    entries: Map<(Seq<char>, Seq<char>), Seq<char>>,
)
    requires
        config::recorded_player(entries, guild) is Err,
    ensures
        stop_next(StopState::AwaitingConfig, StopEventView::ConfigLoaded { guild, entries }) == (
            StopState::Finished,
            seq![StopActionView::Fail(config::recorded_player(entries, guild)->Err_0)],
        ),
{
}

/// Takes one step of `/stop`: from the state and what was reported, the
/// next state and the actions to take, in order.
pub fn stop(state: StopState, event: StopEvent) -> (r: (StopState, Vec<StopAction>))
    ensures
        (r.0, stop_actions_view(r.1@)) == stop_next(state, event@),
{
    let ghost e = event@;
    let mut actions: Vec<StopAction> = Vec::new();
    match (state, event) {
        (StopState::Start, StopEvent::Invoked) => {
            actions.push(
                StopAction::Respond(
                    InteractionReply {
                        kind: ResponseKind::ChannelMessageWithSource,
                        content: String::from_str("Stopping music..."),
                    },
                ),
            );
            actions.push(StopAction::FindHandler);
            assert(stop_actions_view(actions@) =~= stop_next(StopState::Start, e).1);
            (StopState::AwaitingHandler, actions)
        },
        (StopState::AwaitingHandler, StopEvent::HandlerChecked { in_voice }) => {
            if in_voice {
                actions.push(StopAction::StopQueue);
                actions.push(StopAction::Leave);
                assert(stop_actions_view(actions@) =~= stop_next(StopState::AwaitingHandler, e).1);
                (StopState::AwaitingConfig, actions)
            } else {
                actions.push(
                    StopAction::EditResponse(
                        String::from_str(
                            "Not in a voice channel, try `/join <channel's name>` before stopping the player.",
                        ),
                    ),
                );
                assert(stop_actions_view(actions@) =~= stop_next(StopState::AwaitingHandler, e).1);
                (StopState::Finished, actions)
            }
        },
        (StopState::AwaitingConfig, StopEvent::ConfigLoaded { guild, config }) => {
            match config::player_message_id(&config, guild) {
                Ok(id) => {
                    actions.push(StopAction::DeleteMessage(id));
                    actions.push(StopAction::EditResponse(String::from_str("Music player stopped.")));
                },
                Err(err) => {
                    actions.push(StopAction::Fail(err));
                },
            }
            assert(stop_actions_view(actions@) =~= stop_next(StopState::AwaitingConfig, e).1);
            (StopState::Finished, actions)
        },
        (state, _) => {
            assert(stop_actions_view(actions@) =~= Seq::<StopActionView>::empty());
            (state, actions)
        },
    }
}

// ---------------------------------------------------------------- track end

/// What becomes of the player when a track ends.
pub enum TrackEndOutcome {
    /// The queue still holds tracks: edit the player.
    Refresh(PlayerUpdate),
    /// The queue is over: the player message with this id disappears.
    Remove(u64),
}

pub enum TrackEndOutcomeView {
    Refresh(PlayerUpdateView),
    Remove(u64),
}

pub open spec fn track_end_view(r: Result<TrackEndOutcome, PlayerError>) -> Result<
    TrackEndOutcomeView,
    PlayerError,
> {
    match r {
        Ok(TrackEndOutcome::Refresh(u)) => Ok(TrackEndOutcomeView::Refresh(u@)),
        Ok(TrackEndOutcome::Remove(id)) => Ok(TrackEndOutcomeView::Remove(id)),
        Err(e) => Err(e),
    }
}

/// What becomes of the player of `guild` when a track ends, given the queue
/// (current track first) and the status of the current track: it disappears
/// once the queue is over, else it is refreshed.
pub open spec fn track_end_of(
    entries: Map<(Seq<char>, Seq<char>), Seq<char>>,
    guild: u64,
    queue: Seq<TrackMetaView>,
    current: Option<PlayMode>,
) -> Result<TrackEndOutcomeView, PlayerError> {
    if queue.len() == 0 {
        match config::recorded_player(entries, guild) {
            Ok(id) => Ok(TrackEndOutcomeView::Remove(id)),
            Err(e) => Err(e),
        }
    } else {
        match player::update_of(entries, guild, queue, player::queue_status(current)) {
            Ok(u) => Ok(TrackEndOutcomeView::Refresh(u)),
            Err(e) => Err(e),
        }
    }
}

/// When a track ends, an empty queue removes the guild's recorded player,
/// and any other queue refreshes that player to show the current track in
/// place with the current track's status (stopped when there is none) and
/// the next track when there is one.
pub proof fn lemma_track_end_shows_queue(
    entries: Map<(Seq<char>, Seq<char>), Seq<char>>,
    guild: u64,
    queue: Seq<TrackMetaView>,
    current: Option<PlayMode>,
)
    ensures
        queue.len() == 0 && config::recorded_player(entries, guild) is Ok ==> track_end_of(
            entries,
            guild,
            queue,
            current,
        ) == Ok::<TrackEndOutcomeView, PlayerError>(
            TrackEndOutcomeView::Remove(config::recorded_player(entries, guild)->Ok_0),
        ),
        track_end_of(entries, guild, queue, current) matches Ok(
            TrackEndOutcomeView::Refresh(u),
        ) ==> {
            &&& queue.len() >= 1
            &&& config::recorded_player(entries, guild) == Ok::<u64, PlayerError>(u.message_id)
            &&& queue[0].title == Some(u.embed.description)
            &&& queue[0].thumbnail == Some(u.embed.image)
            &&& queue[0].source_url == Some(u.embed.url)
            &&& queue[0].channel == Some(u.embed.channel)
            &&& u.embed.status == player::status_name(
                match current {
                    Some(m) => m,
                    None => PlayMode::Stop,
                },
            )
            &&& (queue.len() >= 2 ==> u.embed.coming_next == queue[1].title)
            &&& (queue.len() == 1 ==> u.embed.coming_next is None)
        },
{
    let status = match current {
        Some(m) => m,
        None => PlayMode::Stop,
    };
    player::lemma_update_shows_current_track(entries, guild, queue, status);
}

/// Keeps the player of a guild in step with its queue whenever a track ends.
pub struct TrackEndNotifier {
    pub guild_id: u64,
    pub chan_id: u64,
}

impl TrackEndNotifier {
    /// What becomes of the player once a track ended, given the
    /// configuration, the queue (current track first) and the status of the
    /// current track.
    pub fn act(&self, config: &Ini, queue: &Vec<TrackMeta>, current: Option<PlayMode>) -> (r:
        Result<TrackEndOutcome, PlayerError>)
        ensures
            track_end_view(r) == track_end_of(
                config::ini_entries(*config),
                self.guild_id,
                queue@.map_values(|t: TrackMeta| t@),
                current,
            ),
    {
        if queue.len() == 0 {
            match config::player_message_id(config, self.guild_id) {
                Ok(id) => Ok(TrackEndOutcome::Remove(id)),
                Err(e) => Err(e),
            }
        } else {
            let status = match current {
                Some(m) => m,
                None => PlayMode::Stop,
            };
            match player_update(config, self.guild_id, queue, status) {
                Ok(u) => Ok(TrackEndOutcome::Refresh(u)),
                Err(e) => Err(e),
            }
        }
    }
}

/// With the configuration `/play` saved, `/stop` deletes the player message
/// that `/play` posted.
pub proof fn lemma_stop_deletes_posted_player(
    entries: Map<(Seq<char>, Seq<char>), Seq<char>>,
    guild: u64,
    message_id: u64,
)
    ensures
        stop_next(
            StopState::AwaitingConfig,
            StopEventView::ConfigLoaded { guild, entries: config::with_player(entries, guild, message_id) },
        ) == (
            StopState::Finished,
            seq![StopActionView::DeleteMessage(message_id), StopActionView::EditResponse(stopped_text())],
        ),
{
    config::lemma_record_then_lookup(entries, guild, message_id);
}

/// With the configuration `/play` saved, a track end edits or removes the
/// player message that `/play` posted: it is removed exactly when the queue
/// is over, and nothing fails but for a track that lacks what the player shows.
pub proof fn lemma_track_end_follows_posted_player(
    entries: Map<(Seq<char>, Seq<char>), Seq<char>>,
    guild: u64,
    message_id: u64,
    queue: Seq<TrackMetaView>,
    current: Option<PlayMode>,
)
    ensures
        match track_end_of(config::with_player(entries, guild, message_id), guild, queue, current) {
            Ok(TrackEndOutcomeView::Refresh(u)) => queue.len() > 0 && u.message_id == message_id,
            Ok(TrackEndOutcomeView::Remove(id)) => queue.len() == 0 && id == message_id,
            Err(e) => queue.len() > 0 && e == PlayerError::MissingMetadata,
        },
{
    config::lemma_record_then_lookup(entries, guild, message_id);
}

/// Once `/stop` is finished, nothing it is told changes anything.
pub proof fn lemma_stop_finished_is_final(event: StopEventView)
    ensures
        stop_next(StopState::Finished, event) == (StopState::Finished, Seq::<StopActionView>::empty()),
{
}

} // verus!
