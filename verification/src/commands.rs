//! Slash commands as the bot declares them to Discord.
use vstd::prelude::*;

verus! {

/// The kind of value an option takes.
#[derive(Debug, Clone, Copy, PartialEq, Eq)]
pub enum OptionKind {
    String,
    Channel,
}

/// The kinds of channel a channel option accepts.
#[derive(Debug, Clone, Copy, PartialEq, Eq)]
pub enum ChannelKind {
    Voice,
}

/// A fixed choice of a string option: the name shown and the value sent.
pub struct Choice {
    pub name: String,
    pub value: String,
}

pub struct ChoiceView {
    pub name: Seq<char>,
    pub value: Seq<char>,
}

impl View for Choice {
    type V = ChoiceView;

    open spec fn view(&self) -> ChoiceView {
        ChoiceView { name: self.name@, value: self.value@ }
    }
}

/// An option of a slash command.
pub struct CommandOption {
    pub name: String,
    pub description: String,
    pub kind: OptionKind,
    pub required: bool,
    pub choices: Vec<Choice>,
    pub channel_types: Vec<ChannelKind>,
}

pub struct CommandOptionView {
    pub name: Seq<char>,
    pub description: Seq<char>,
    pub kind: OptionKind,
    pub required: bool,
    pub choices: Seq<ChoiceView>,
    pub channel_types: Seq<ChannelKind>,
}

impl View for CommandOption {
    type V = CommandOptionView;

    open spec fn view(&self) -> CommandOptionView {
        CommandOptionView {
            name: self.name@,
            description: self.description@,
            kind: self.kind,
            required: self.required,
            choices: self.choices@.map_values(|c: Choice| c@),
            channel_types: self.channel_types@,
        }
    }
}

/// A slash command: its name, its description and its options.
pub struct CommandSpec {
    pub name: String,
    pub description: String,
    pub options: Vec<CommandOption>,
}

pub struct CommandSpecView {
    pub name: Seq<char>,
    pub description: Seq<char>,
    pub options: Seq<CommandOptionView>,
}

impl View for CommandSpec {
    type V = CommandSpecView;

    open spec fn view(&self) -> CommandSpecView {
        CommandSpecView {
            name: self.name@,
            description: self.description@,
            options: self.options@.map_values(|o: CommandOption| o@),
        }
    }
}

/// The views of a list of commands.
pub open spec fn specs_view(v: Seq<CommandSpec>) -> Seq<CommandSpecView> {
    v.map_values(|c: CommandSpec| c@)
}

/// A required option without choices.
pub open spec fn plain_option(name: Seq<char>, description: Seq<char>, kind: OptionKind) -> CommandOptionView {
    CommandOptionView {
        name,
        description,
        kind,
        required: true,
        choices: Seq::empty(),
        channel_types: Seq::empty(),
    }
}

/// A command without options.
pub open spec fn bare_command(name: Seq<char>, description: Seq<char>) -> CommandSpecView {
    CommandSpecView { name, description, options: Seq::empty() }
}

/// `/join <channel>`: a required voice channel.
pub open spec fn join_command() -> CommandSpecView {
    CommandSpecView {
        name: "join"@,
        description: "join a voice channel"@,
        options: seq![
            CommandOptionView {
                name: "channel"@,
                description: "the channel to join"@,
                kind: OptionKind::Channel,
                required: true,
                choices: Seq::empty(),
                channel_types: seq![ChannelKind::Voice],
            },
        ],
    }
}

/// Builds a required option without choices.
pub fn new_option(name: &str, description: &str, kind: OptionKind) -> (o: CommandOption)
    ensures
        o@ == plain_option(name@, description@, kind),
        o.choices@.len() == 0,
        o.channel_types@.len() == 0,
{
    let o = CommandOption {
        name: String::from_str(name),
        description: String::from_str(description),
        kind,
        required: true,
        choices: Vec::new(),
        channel_types: Vec::new(),
    };
    assert(o@.choices =~= Seq::<ChoiceView>::empty());
    o
}

/// Builds a command without options.
pub fn new_command(name: &str, description: &str) -> (c: CommandSpec)
    ensures
        c@ == bare_command(name@, description@),
        c.options@.len() == 0,
{
    let c = CommandSpec {
        name: String::from_str(name),
        description: String::from_str(description),
        options: Vec::new(),
    };
    assert(c@.options =~= Seq::<CommandOptionView>::empty());
    c
}

/// Builds `/join`.
pub fn join_command_spec() -> (c: CommandSpec)
    ensures
        c@ == join_command(),
{
    let mut option = new_option("channel", "the channel to join", OptionKind::Channel);
    option.channel_types.push(ChannelKind::Voice);
    let mut c = new_command("join", "join a voice channel");
    c.options.push(option);
    assert(c@.options =~= join_command().options);
    c
}

/// `/play <url>`: a required string, the address of the video.
pub open spec fn play_command() -> CommandSpecView {
    CommandSpecView {
        name: "play"@,
        description: "Add a music to the queue and play it"@,
        options: seq![plain_option("url"@, "the youtube url of the video"@, OptionKind::String)],
    }
}

/// Builds `/play <url>`.
pub fn play_command_spec() -> (c: CommandSpec)
    ensures
        c@ == play_command(),
{
    let mut c = new_command("play", "Add a music to the queue and play it");
    let url = new_option("url", "the youtube url of the video", OptionKind::String);
    let ghost first = url@;
    c.options.push(url);
    assert(c.options@.len() == 1);
    assert(c@.options[0] == first);
    assert(c@.options =~= play_command().options);
    c
}

} // verus!
