//! The player: the one message of a guild that shows the track being played,
//! its status and the track that comes next.
use vstd::prelude::*;
use ini::Ini;
use crate::config;
use crate::config::player_message_id;
use crate::interaction::{reply_view, InteractionReply, InteractionReplyView, ResponseKind};

verus! {

/// Why the player message cannot be shown or updated.
#[derive(Debug, Clone, Copy, PartialEq, Eq)]
pub enum PlayerError {
    /// The configuration holds no player message for the guild.
    NotRecorded,
    /// The recorded player message id is not a number.
    InvalidId,
    /// The queue holds no track to show.
    MissingTrack,
    /// A track the player shows lacks its title, thumbnail, address or channel.
    MissingMetadata,
}

/// Playback status of a track.
#[derive(Debug, Clone, Copy, PartialEq, Eq)]
pub enum PlayMode {
    Play,
    Pause,
    Stop,
    End,
}

/// What the voice driver knows of a queued track.
pub struct TrackMeta {
    pub title: Option<String>,
    pub thumbnail: Option<String>,
    pub source_url: Option<String>,
    pub channel: Option<String>,
}

pub struct TrackMetaView {
    pub title: Option<Seq<char>>,
    pub thumbnail: Option<Seq<char>>,
    pub source_url: Option<Seq<char>>,
    pub channel: Option<Seq<char>>,
}

pub open spec fn opt_view(o: Option<String>) -> Option<Seq<char>> {
    match o {
        Some(s) => Some(s@),
        None => None,
    }
}

impl View for TrackMeta {
    type V = TrackMetaView;

    open spec fn view(&self) -> TrackMetaView {
        TrackMetaView {
            title: opt_view(self.title),
            thumbnail: opt_view(self.thumbnail),
            source_url: opt_view(self.source_url),
            channel: opt_view(self.channel),
        }
    }
}

/// The embed of the player message.
pub struct PlayerEmbed {
    pub title: String,
    pub description: String,
    pub image: String,
    pub url: String,
    pub channel: String,
    pub status: String,
    pub coming_next: Option<String>,
}

pub struct PlayerEmbedView {
    pub title: Seq<char>,
    pub description: Seq<char>,
    pub image: Seq<char>,
    pub url: Seq<char>,
    pub channel: Seq<char>,
    pub status: Seq<char>,
    pub coming_next: Option<Seq<char>>,
}

impl View for PlayerEmbed {
    type V = PlayerEmbedView;

    open spec fn view(&self) -> PlayerEmbedView {
        PlayerEmbedView {
            title: self.title@,
            description: self.description@,
            image: self.image@,
            url: self.url@,
            channel: self.channel@,
            status: self.status@,
            coming_next: opt_view(self.coming_next),
        }
    }
}

/// The look of a button.
#[derive(Debug, Clone, Copy, PartialEq, Eq)]
pub enum ButtonStyle {
    Primary,
    Success,
    Danger,
}

/// A button under the player message: its style, its label and the id its
/// presses come back with.
pub struct PlayerButton {
    pub style: ButtonStyle,
    pub label: String,
    pub custom_id: String,
}

pub struct PlayerButtonView {
    pub style: ButtonStyle,
    pub label: Seq<char>,
    pub custom_id: Seq<char>,
}

impl View for PlayerButton {
    type V = PlayerButtonView;

    open spec fn view(&self) -> PlayerButtonView {
        PlayerButtonView { style: self.style, label: self.label@, custom_id: self.custom_id@ }
    }
}

/// The buttons of the player, in one row: pause or play, skip, stop.
pub open spec fn buttons_of() -> Seq<PlayerButtonView> {
    seq![
        PlayerButtonView { style: ButtonStyle::Success, label: "Pause / Play"@, custom_id: "pause"@ },
        PlayerButtonView { style: ButtonStyle::Primary, label: "Skip"@, custom_id: "skip"@ },
        PlayerButtonView { style: ButtonStyle::Danger, label: "Stop"@, custom_id: "stop"@ },
    ]
}

fn new_button(style: ButtonStyle, label: &str, custom_id: &str) -> (b: PlayerButton)
    ensures
        b@ == (PlayerButtonView { style, label: label@, custom_id: custom_id@ }),
{
    PlayerButton { style, label: String::from_str(label), custom_id: String::from_str(custom_id) }
}

/// The buttons posted under a new player.
pub fn player_buttons() -> (r: Vec<PlayerButton>)
    ensures
        r@.map_values(|b: PlayerButton| b@) == buttons_of(),
{
    let mut r = Vec::new();
    r.push(new_button(ButtonStyle::Success, "Pause / Play", "pause"));
    r.push(new_button(ButtonStyle::Primary, "Skip", "skip"));
    r.push(new_button(ButtonStyle::Danger, "Stop", "stop"));
    assert(r@.map_values(|b: PlayerButton| b@) =~= buttons_of());
    r
}

/// A press of one of the player's buttons.
#[derive(Debug, Clone, Copy, PartialEq, Eq)]
pub enum ButtonPress {
    /// "Pause / Play".
    TogglePause,
    /// "Skip".
    Skip,
    /// "Stop".
    Stop,
}

/// What is done to the guild's queue.
#[derive(Debug, Clone, Copy, PartialEq, Eq)]
pub enum QueueCommand {
    Pause,
    Resume,
    Skip,
    Stop,
    Nothing,
}

/// The answer to a button press and what is done to the queue.
pub struct ButtonOutcome {
    pub reply: InteractionReply,
    pub command: QueueCommand,
}

/// The button whose custom id is `custom_id`, if it is one of the player's.
pub open spec fn press_of_id(custom_id: Seq<char>) -> Option<ButtonPress> {
    if custom_id == "pause"@ {
        Some(ButtonPress::TogglePause)
    } else if custom_id == "skip"@ {
        Some(ButtonPress::Skip)
    } else if custom_id == "stop"@ {
        Some(ButtonPress::Stop)
    } else {
        None
    }
}

/// What a press does to the queue, given whether the bot is in a voice
/// channel of the guild and the status of the current track, if any:
/// "Pause / Play" pauses a playing track and resumes a paused one, "Skip"
/// skips the current track and "Stop" stops the queue. Out of a voice
/// channel, or with no track to pause or resume, nothing is done.
pub open spec fn command_of(press: ButtonPress, in_voice: bool, current: Option<PlayMode>) -> QueueCommand {
    if !in_voice {
        QueueCommand::Nothing
    } else {
        match press {
            ButtonPress::TogglePause => match current {
                Some(PlayMode::Play) => QueueCommand::Pause,
                Some(PlayMode::Pause) => QueueCommand::Resume,
                _ => QueueCommand::Nothing,
            },
            ButtonPress::Skip => QueueCommand::Skip,
            ButtonPress::Stop => QueueCommand::Stop,
        }
    }
}

/// The acknowledgement of a button press: it posts nothing, so the channel
/// holds the player message alone.
pub open spec fn press_reply() -> InteractionReplyView {
    reply_view(ResponseKind::DeferredUpdateMessage, Seq::empty())
}

/// Decides a press of the player's buttons.
pub fn press_button(press: ButtonPress, in_voice: bool, current: Option<PlayMode>) -> (r: ButtonOutcome)
    ensures
        r.reply@ == press_reply(),
        r.command == command_of(press, in_voice, current),
{
    let command = if !in_voice {
        QueueCommand::Nothing
    } else {
        match press {
            ButtonPress::TogglePause => match current {
                Some(PlayMode::Play) => QueueCommand::Pause,
                Some(PlayMode::Pause) => QueueCommand::Resume,
                _ => QueueCommand::Nothing,
            },
            ButtonPress::Skip => QueueCommand::Skip,
            ButtonPress::Stop => QueueCommand::Stop,
        }
    };
    let reply = InteractionReply { kind: ResponseKind::DeferredUpdateMessage, content: String::new() };
    assert(reply@.content =~= Seq::<char>::empty());
    ButtonOutcome { reply, command }
}

/// Each button of the player is recognised by its custom id.
pub proof fn lemma_player_buttons_are_recognised()
    ensures
        press_of_id(buttons_of()[0].custom_id) == Some(ButtonPress::TogglePause),
        press_of_id(buttons_of()[1].custom_id) == Some(ButtonPress::Skip),
        press_of_id(buttons_of()[2].custom_id) == Some(ButtonPress::Stop),
{
    reveal_strlit("pause");
    reveal_strlit("skip");
    reveal_strlit("stop");
    assert("skip"@[1] != "pause"@[1]);
    assert("stop"@[1] != "pause"@[1]);
    assert("stop"@[1] != "skip"@[1]);
}

/// Pressing "Pause / Play" twice leaves the track as it was: a playing track
/// is paused, then resumed.
pub proof fn lemma_toggle_pause_twice(in_voice: bool)
    requires
        in_voice,
    ensures
        command_of(ButtonPress::TogglePause, in_voice, Some(PlayMode::Play)) == QueueCommand::Pause,
        command_of(ButtonPress::TogglePause, in_voice, Some(PlayMode::Pause)) == QueueCommand::Resume,
{
}

/// The player carries three buttons in one row: a green "Pause / Play"
/// sending "pause", a blue "Skip" sending "skip" and a red "Stop" sending
/// "stop".
pub proof fn lemma_player_button_row()
    ensures
        buttons_of().len() == 3,
        buttons_of()[0].style == ButtonStyle::Success && buttons_of()[0].label == "Pause / Play"@
            && buttons_of()[0].custom_id == "pause"@,
        buttons_of()[1].style == ButtonStyle::Primary && buttons_of()[1].label == "Skip"@
            && buttons_of()[1].custom_id == "skip"@,
        buttons_of()[2].style == ButtonStyle::Danger && buttons_of()[2].label == "Stop"@
            && buttons_of()[2].custom_id == "stop"@,
{
}

/// What each press does to the queue: out of a voice channel nothing; in
/// one, Skip always skips and Stop always stops the queue whatever the
/// current track's status, while Pause / Play pauses a playing track,
/// resumes a paused one and does nothing otherwise.
pub proof fn lemma_press_commands(press: ButtonPress, current: Option<PlayMode>)
    ensures
        command_of(press, false, current) == QueueCommand::Nothing,
        command_of(ButtonPress::Skip, true, current) == QueueCommand::Skip,
        command_of(ButtonPress::Stop, true, current) == QueueCommand::Stop,
        current == Some(PlayMode::Play) ==> command_of(ButtonPress::TogglePause, true, current)
            == QueueCommand::Pause,
        current == Some(PlayMode::Pause) ==> command_of(ButtonPress::TogglePause, true, current)
            == QueueCommand::Resume,
        current != Some(PlayMode::Play) && current != Some(PlayMode::Pause) ==> command_of(
            ButtonPress::TogglePause,
            true,
            current,
        ) == QueueCommand::Nothing,
{
}

/// An edit of the player message already posted in a guild.
pub struct PlayerUpdate {
    pub message_id: u64,
    pub content: String,
    pub embed: PlayerEmbed,
}

pub struct PlayerUpdateView {
    pub message_id: u64,
    pub content: Seq<char>,
    pub embed: PlayerEmbedView,
}

impl View for PlayerUpdate {
    type V = PlayerUpdateView;

    open spec fn view(&self) -> PlayerUpdateView {
        PlayerUpdateView { message_id: self.message_id, content: self.content@, embed: self.embed@ }
    }
}

pub open spec fn update_result_view(r: Result<PlayerUpdate, PlayerError>) -> Result<
    PlayerUpdateView,
    PlayerError,
> {
    match r {
        Ok(u) => Ok(u@),
        Err(e) => Err(e),
    }
}

/// The name under which the player shows a status.
pub open spec fn status_name(mode: PlayMode) -> Seq<char> {
    match mode {
        PlayMode::Play => "Play"@,
        PlayMode::Pause => "Pause"@,
        PlayMode::Stop => "Stop"@,
        PlayMode::End => "End"@,
    }
}

/// Whether a status means that music is being played: playing or paused.
pub open spec fn active(mode: PlayMode) -> bool {
    mode == PlayMode::Play || mode == PlayMode::Pause
}

/// The status of the queue given the status of its current track, if any:
/// an empty queue counts as stopped.
pub open spec fn queue_status(current: Option<PlayMode>) -> PlayMode {
    match current {
        Some(m) => m,
        None => PlayMode::Stop,
    }
}

/// A track carries everything the player shows of it.
pub open spec fn meta_complete(m: TrackMetaView) -> bool {
    &&& m.title is Some
    &&& m.thumbnail is Some
    &&& m.source_url is Some
    &&& m.channel is Some
}

/// The player embed for the `current` track.
pub open spec fn embed_of(
    current: TrackMetaView,
    status: PlayMode,
    coming_next: Option<Seq<char>>,
) -> PlayerEmbedView {
    PlayerEmbedView {
        title: "Moujin Player"@,
        description: current.title.unwrap(),
        image: current.thumbnail.unwrap(),
        url: current.source_url.unwrap(),
        channel: current.channel.unwrap(),
        status: status_name(status),
        coming_next,
    }
}

/// The text of the player message once `title` was added to the queue.
pub open spec fn added_text(title: Seq<char>) -> Seq<char> {
    "`"@ + title + "` added to the queue"@
}

/// The edit of the player of `guild` for the queue `queue` (current track
/// first) and the status `status`, or why the player cannot be edited. The
/// embed shows the track after the current one when there is one.
pub open spec fn update_of(
    entries: Map<(Seq<char>, Seq<char>), Seq<char>>,
    guild: u64,
    queue: Seq<TrackMetaView>,
    status: PlayMode,
) -> Result<PlayerUpdateView, PlayerError> {
    match config::recorded_player(entries, guild) {
        Err(e) => Err(e),
        Ok(id) => {
            if queue.len() == 0 {
                Err(PlayerError::MissingTrack)
            } else if queue.last().title is None {
                Err(PlayerError::MissingMetadata)
            } else if !meta_complete(queue[0]) {
                Err(PlayerError::MissingMetadata)
            } else if queue.len() >= 2 && queue[1].title is None {
                Err(PlayerError::MissingMetadata)
            } else {
                Ok(
                    PlayerUpdateView {
                        message_id: id,
                        content: added_text(queue.last().title.unwrap()),
                        embed: embed_of(
                            queue[0],
                            status,
                            if queue.len() >= 2 {
                                queue[1].title
                            } else {
                                None
                            },
                        ),
                    },
                )
            }
        },
    }
}

/// The player shows each status under its own name.
pub proof fn lemma_status_names()
    ensures
        status_name(PlayMode::Play) == "Play"@,
        status_name(PlayMode::Pause) == "Pause"@,
        status_name(PlayMode::Stop) == "Stop"@,
        status_name(PlayMode::End) == "End"@,
{
}

/// The player embed shows the current track in place: its title as the
/// description, its thumbnail as the image, its address as the link and its
/// channel, under the title "Moujin Player" with the given status.
pub proof fn lemma_embed_shows_track(
    current: TrackMetaView,
    status: PlayMode,
    coming_next: Option<Seq<char>>,
)
    requires
        meta_complete(current),
    ensures
        current.title == Some(embed_of(current, status, coming_next).description),
        current.thumbnail == Some(embed_of(current, status, coming_next).image),
        current.source_url == Some(embed_of(current, status, coming_next).url),
        current.channel == Some(embed_of(current, status, coming_next).channel),
        embed_of(current, status, coming_next).title == "Moujin Player"@,
        embed_of(current, status, coming_next).status == status_name(status),
        embed_of(current, status, coming_next).coming_next == coming_next,
{
}

/// An edit of the player is made exactly when the guild's player is recorded
/// and the tracks it shows are complete. It edits the recorded message, says
/// which track was added last, and shows the current track in place with
/// the given status and the next track's title when there is one.
pub proof fn lemma_update_shows_current_track(
    entries: Map<(Seq<char>, Seq<char>), Seq<char>>,
    guild: u64,
    queue: Seq<TrackMetaView>,
    status: PlayMode,
)
    ensures
        update_of(entries, guild, queue, status) is Ok <==> {
            &&& config::recorded_player(entries, guild) is Ok
            &&& queue.len() >= 1
            &&& meta_complete(queue[0])
            &&& queue.last().title is Some
            &&& (queue.len() >= 2 ==> queue[1].title is Some)
        },
        update_of(entries, guild, queue, status) matches Ok(u) ==> {
            &&& config::recorded_player(entries, guild) == Ok::<u64, PlayerError>(u.message_id)
            &&& u.content == "`"@ + queue.last().title.unwrap() + "` added to the queue"@
            &&& queue[0].title == Some(u.embed.description)
            &&& queue[0].thumbnail == Some(u.embed.image)
            &&& queue[0].source_url == Some(u.embed.url)
            &&& queue[0].channel == Some(u.embed.channel)
            &&& u.embed.title == "Moujin Player"@
            &&& u.embed.status == status_name(status)
            &&& (queue.len() >= 2 ==> u.embed.coming_next == queue[1].title)
            &&& (queue.len() == 1 ==> u.embed.coming_next is None)
        },
{
}

/// The name under which the player shows `mode`.
pub fn status_text(mode: PlayMode) -> (s: String)
    ensures
        s@ == status_name(mode),
{
    match mode {
        PlayMode::Play => String::from_str("Play"),
        PlayMode::Pause => String::from_str("Pause"),
        PlayMode::Stop => String::from_str("Stop"),
        PlayMode::End => String::from_str("End"),
    }
}

/// Whether music is being played: the status is playing or paused.
pub fn is_active(mode: PlayMode) -> (r: bool)
    ensures
        r == active(mode),
{
    match mode {
        PlayMode::Play => true,
        PlayMode::Pause => true,
        _ => false,
    }
}

fn clone_opt(o: &Option<String>) -> (r: Option<String>)
    ensures
        opt_view(r) == opt_view(*o),
{
    match o {
        Some(s) => Some(s.clone()),
        None => None,
    }
}

fn unwrap_text(o: &Option<String>) -> (r: String)
    requires
        o is Some,
    ensures
        r@ == opt_view(*o).unwrap(),
{
    match o {
        Some(s) => s.clone(),
        None => String::new(),
    }
}

/// Whether a track carries everything the player shows of it.
pub fn is_complete(m: &TrackMeta) -> (r: bool)
    ensures
        r == meta_complete(m@),
{
    m.title.is_some() && m.thumbnail.is_some() && m.source_url.is_some() && m.channel.is_some()
}

/// The player embed for `current`, with `coming_next` as the title of the
/// next track, if it is shown.
pub fn player_embed(current: &TrackMeta, status: PlayMode, coming_next: Option<String>) -> (e:
    PlayerEmbed)
    requires
        meta_complete(current@),
    ensures
        e@ == embed_of(current@, status, opt_view(coming_next)),
{
    PlayerEmbed {
        title: String::from_str("Moujin Player"),
        description: unwrap_text(&current.title),
        image: unwrap_text(&current.thumbnail),
        url: unwrap_text(&current.source_url),
        channel: unwrap_text(&current.channel),
        status: status_text(status),
        coming_next,
    }
}

/// The edit of the player of `guild` once the queue is `queue` (current track
/// first) with status `status`: the message says which track was added last,
/// and the embed shows the current track and the one after it.
pub fn player_update(config: &Ini, guild: u64, queue: &Vec<TrackMeta>, status: PlayMode) -> (r:
    Result<PlayerUpdate, PlayerError>)
    ensures
        update_result_view(r) == update_of(
            config::ini_entries(*config),
            guild,
            queue@.map_values(|t: TrackMeta| t@),
            status,
        ),
{
    let ghost q = queue@.map_values(|t: TrackMeta| t@);
    let id = match player_message_id(config, guild) {
        Ok(id) => id,
        Err(e) => {
            return Err(e);
        },
    };
    let n = queue.len();
    if n == 0 {
        return Err(PlayerError::MissingTrack);
    }
    let last = &queue[n - 1];
    assert(q.last() == last@);
    if last.title.is_none() {
        return Err(PlayerError::MissingMetadata);
    }
    let current = &queue[0];
    assert(q[0] == current@);
    if !is_complete(current) {
        return Err(PlayerError::MissingMetadata);
    }
    let coming_next = if n >= 2 {
        let next = &queue[1];
        assert(q[1] == next@);
        if next.title.is_none() {
            return Err(PlayerError::MissingMetadata);
        }
        clone_opt(&next.title)
    } else {
        None
    };
    let mut content = String::from_str("`");
    content.append(unwrap_text(&last.title).as_str());
    content.append("` added to the queue");
    let embed = player_embed(current, status, coming_next);
    Ok(PlayerUpdate { message_id: id, content, embed })
}

} // verus!
