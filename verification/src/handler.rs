//! The bot's main commands and how an incoming command is routed.
use vstd::prelude::*;
use crate::commands::{
    bare_command, join_command, join_command_spec, new_command, new_option, plain_option,
    specs_view, Choice, ChoiceView, CommandOptionView, CommandSpec, CommandSpecView, OptionKind,
};
use crate::player::{press_of_id, ButtonPress};
use crate::text::same_text;

verus! {

/// The handler the bot registers with its Discord client.
pub struct Handler;

/// Which action answers a slash command.
#[derive(Debug, Clone, Copy, PartialEq, Eq)]
pub enum CommandRoute {
    /// `/ping`.
    Ping,
    /// `/character`.
    Character,
    /// `/join`.
    Join,
    /// `/play`.
    Play,
    /// Every other name: the "no command" answer.
    Unknown,
}

/// The route of the command named `name`.
pub open spec fn route_of(name: Seq<char>) -> CommandRoute {
    if name == "ping"@ {
        CommandRoute::Ping
    } else if name == "character"@ {
        CommandRoute::Character
    } else if name == "join"@ {
        CommandRoute::Join
    } else if name == "play"@ {
        CommandRoute::Play
    } else {
        CommandRoute::Unknown
    }
}

/// Each working command is answered by its own action, and by no other
/// name: `/ping`, `/character`, `/join` and `/play`; every other name gets
/// the "no command" answer.
pub proof fn lemma_routes_by_name(name: Seq<char>)
    ensures
        route_of(name) == CommandRoute::Ping <==> name == "ping"@,
        route_of(name) == CommandRoute::Character <==> name == "character"@,
        route_of(name) == CommandRoute::Join <==> name == "join"@,
        route_of(name) == CommandRoute::Play <==> name == "play"@,
        route_of(name) == CommandRoute::Unknown <==> (name != "ping"@ && name != "character"@
            && name != "join"@ && name != "play"@),
{
    reveal_strlit("ping");
    reveal_strlit("character");
    reveal_strlit("join");
    reveal_strlit("play");
    assert("ping"@[0] != "join"@[0] && "ping"@[1] != "play"@[1] && "join"@[0] != "play"@[0]);
    assert("character"@.len() != "ping"@.len());
    assert("character"@.len() != "join"@.len() && "character"@.len() != "play"@.len());
    assert("ping"@ != "join"@ && "ping"@ != "play"@ && "join"@ != "play"@);
}

/// A press is recognised exactly for the ids of the player's buttons:
/// "pause" toggles pause, "skip" skips and "stop" stops.
pub proof fn lemma_presses_by_id(custom_id: Seq<char>)
    ensures
        press_of_id(custom_id) == Some(ButtonPress::TogglePause) <==> custom_id == "pause"@,
        press_of_id(custom_id) == Some(ButtonPress::Skip) <==> custom_id == "skip"@,
        press_of_id(custom_id) == Some(ButtonPress::Stop) <==> custom_id == "stop"@,
        press_of_id(custom_id) is None <==> (custom_id != "pause"@ && custom_id != "skip"@
            && custom_id != "stop"@),
{
    reveal_strlit("pause");
    reveal_strlit("skip");
    reveal_strlit("stop");
    assert("pause"@.len() != "skip"@.len() && "pause"@.len() != "stop"@.len());
    assert("skip"@[1] != "stop"@[1]);
    assert("pause"@ != "skip"@ && "pause"@ != "stop"@ && "skip"@ != "stop"@);
}

/// The handler of the bot's events.
pub fn get_handler() -> Handler {
    Handler
}

impl Handler {
    /// Recognises a press of one of the player's buttons by its custom id.
    pub fn route_component(&self, custom_id: &str) -> (r: Option<ButtonPress>)
        ensures
            r == press_of_id(custom_id@),
    {
        if same_text(custom_id, "pause") {
            Some(ButtonPress::TogglePause)
        } else if same_text(custom_id, "skip") {
            Some(ButtonPress::Skip)
        } else if same_text(custom_id, "stop") {
            Some(ButtonPress::Stop)
        } else {
            None
        }
    }

    /// Picks the action that answers the slash command named `name`.
    pub fn route(&self, name: &str) -> (r: CommandRoute)
        ensures
            r == route_of(name@),
    {
        if same_text(name, "ping") {
            CommandRoute::Ping
        } else if same_text(name, "character") {
            CommandRoute::Character
        } else if same_text(name, "join") {
            CommandRoute::Join
        } else if same_text(name, "play") {
            CommandRoute::Play
        } else {
            CommandRoute::Unknown
        }
    }
}

/// The data centers offered by `/character`: shown name and value sent.
pub open spec fn datacenter_choices() -> Seq<ChoiceView> {
    seq![
        ChoiceView { name: "Moogle, the best"@, value: "Moogle"@ },
        ChoiceView { name: "Louisoix"@, value: "Louisoix"@ },
        ChoiceView { name: "Spriggan"@, value: "Spriggan"@ },
        ChoiceView { name: "Ragnarok"@, value: "Ragnarok"@ },
        ChoiceView { name: "Omega"@, value: "Omega"@ },
        ChoiceView { name: "Cerberus"@, value: "Cerberus"@ },
        ChoiceView { name: "Lich"@, value: "Lich"@ },
        ChoiceView { name: "Odin"@, value: "Odin"@ },
        ChoiceView { name: "Phoenix"@, value: "Phoenix"@ },
        ChoiceView { name: "Shiva"@, value: "Shiva"@ },
        ChoiceView { name: "Twintania"@, value: "Twintania"@ },
        ChoiceView { name: "Zodiark"@, value: "Zodiark"@ },
        ChoiceView { name: "Bismarck"@, value: "Bismarck"@ },
        ChoiceView { name: "Ravana"@, value: "Ravana"@ },
        ChoiceView { name: "Sephirot"@, value: "Sephirot"@ },
        ChoiceView { name: "Sophia"@, value: "Sophia"@ },
        ChoiceView { name: "Zurvan"@, value: "Zurvan"@ },
        ChoiceView { name: "Aegis"@, value: "Aegis"@ },
        ChoiceView { name: "Atomos"@, value: "Atomos"@ },
        ChoiceView { name: "Carbuncle"@, value: "Carbuncle"@ },
        ChoiceView { name: "Garuda"@, value: "Garuda"@ },
        ChoiceView { name: "Gungnir"@, value: "Gungnir"@ },
        ChoiceView { name: "Kujata"@, value: "Kujata"@ },
        ChoiceView { name: "Ramuh"@, value: "Ramuh"@ },
        ChoiceView { name: "Tonberry"@, value: "Tonberry"@ },
        ChoiceView { name: "Typhon"@, value: "Typhon"@ },
        ChoiceView { name: "Unicorn"@, value: "Unicorn"@ },
    ]
}

/// `/character <datacenter> <name>`.
pub open spec fn character_command() -> CommandSpecView {
    CommandSpecView {
        name: "character"@,
        description: "Get the datas of the character in the desired DataCenter"@,
        options: seq![
            CommandOptionView {
                name: "datacenter"@,
                description: "the datacenter the character's datas will be pulled of"@,
                kind: OptionKind::String,
                required: true,
                choices: datacenter_choices(),
                channel_types: Seq::empty(),
            },
            plain_option("name"@, "character's firstname and lastname"@, OptionKind::String),
        ],
    }
}

/// The main commands: `/ping`, `/character` and `/join`.
pub open spec fn main_commands() -> Seq<CommandSpecView> {
    seq![bare_command("ping"@, "An amazing command"@), character_command(), join_command()]
}

fn new_choice(name: &str, value: &str) -> (c: Choice)
    ensures
        c@ == (ChoiceView { name: name@, value: value@ }),
{
    Choice { name: String::from_str(name), value: String::from_str(value) }
}

fn datacenters() -> (v: Vec<Choice>)
    ensures
        v@.map_values(|c: Choice| c@) == datacenter_choices(),
{
    let mut choices: Vec<Choice> = Vec::new();
    choices.push(new_choice("Moogle, the best", "Moogle"));
    choices.push(new_choice("Louisoix", "Louisoix"));
    choices.push(new_choice("Spriggan", "Spriggan"));
    choices.push(new_choice("Ragnarok", "Ragnarok"));
    choices.push(new_choice("Omega", "Omega"));
    choices.push(new_choice("Cerberus", "Cerberus"));
    choices.push(new_choice("Lich", "Lich"));
    choices.push(new_choice("Odin", "Odin"));
    choices.push(new_choice("Phoenix", "Phoenix"));
    choices.push(new_choice("Shiva", "Shiva"));
    choices.push(new_choice("Twintania", "Twintania"));
    choices.push(new_choice("Zodiark", "Zodiark"));
    choices.push(new_choice("Bismarck", "Bismarck"));
    choices.push(new_choice("Ravana", "Ravana"));
    choices.push(new_choice("Sephirot", "Sephirot"));
    choices.push(new_choice("Sophia", "Sophia"));
    choices.push(new_choice("Zurvan", "Zurvan"));
    choices.push(new_choice("Aegis", "Aegis"));
    choices.push(new_choice("Atomos", "Atomos"));
    choices.push(new_choice("Carbuncle", "Carbuncle"));
    choices.push(new_choice("Garuda", "Garuda"));
    choices.push(new_choice("Gungnir", "Gungnir"));
    choices.push(new_choice("Kujata", "Kujata"));
    choices.push(new_choice("Ramuh", "Ramuh"));
    choices.push(new_choice("Tonberry", "Tonberry"));
    choices.push(new_choice("Typhon", "Typhon"));
    choices.push(new_choice("Unicorn", "Unicorn"));
    assert(choices@.map_values(|c: Choice| c@) =~= datacenter_choices());
    choices
}

/// The main commands the bot registers when it is ready.
pub fn register_cmds() -> (r: Vec<CommandSpec>)
    ensures
        specs_view(r@) == main_commands(),
{
    let mut datacenter = new_option(
        "datacenter",
        "the datacenter the character's datas will be pulled of",
        OptionKind::String,
    );
    datacenter.choices = datacenters();
    assert(datacenter@.choices == datacenter_choices());
    assert(datacenter@.channel_types =~= Seq::<crate::commands::ChannelKind>::empty());
    assert(datacenter@ == character_command().options[0]);
    let mut character = new_command(
        "character",
        "Get the datas of the character in the desired DataCenter",
    );
    let name = new_option("name", "character's firstname and lastname", OptionKind::String);
    let ghost first = datacenter@;
    let ghost second = name@;
    character.options.push(datacenter);
    character.options.push(name);
    assert(character.options@.len() == 2);
    assert(character@.options[0] == first);
    assert(character@.options[1] == second);
    assert(character@.options =~= character_command().options);
    let mut r = Vec::new();
    r.push(new_command("ping", "An amazing command"));
    r.push(character);
    r.push(join_command_spec());
    assert(specs_view(r@) =~= main_commands());
    r
}

/// The data centers `/character` offers, in order: each choice sends the data
/// center it shows, except the first, shown as "Moogle, the best", which
/// sends "Moogle".
pub proof fn lemma_datacenter_choices_send_what_they_show()
    ensures
        main_commands()[1].options[0].name == "datacenter"@,
        main_commands()[1].options[0].choices.len() == 27,
        main_commands()[1].options[0].choices[0].name == "Moogle, the best"@,
        main_commands()[1].options[0].choices[0].value == "Moogle"@,
        forall|i: int|
            1 <= i < 27 ==> #[trigger] main_commands()[1].options[0].choices[i].value
                == main_commands()[1].options[0].choices[i].name,
        main_commands()[1].options[0].choices.map_values(|c: ChoiceView| c.value) == seq![
            "Moogle"@, "Louisoix"@, "Spriggan"@, "Ragnarok"@, "Omega"@, "Cerberus"@, "Lich"@,
            "Odin"@, "Phoenix"@, "Shiva"@, "Twintania"@, "Zodiark"@, "Bismarck"@, "Ravana"@,
            "Sephirot"@, "Sophia"@, "Zurvan"@, "Aegis"@, "Atomos"@, "Carbuncle"@, "Garuda"@,
            "Gungnir"@, "Kujata"@, "Ramuh"@, "Tonberry"@, "Typhon"@, "Unicorn"@,
        ],
{
    let c = main_commands()[1].options[0].choices;
    assert(c =~= datacenter_choices());
    assert(c.map_values(|x: ChoiceView| x.value) =~= seq![
        "Moogle"@, "Louisoix"@, "Spriggan"@, "Ragnarok"@, "Omega"@, "Cerberus"@, "Lich"@,
        "Odin"@, "Phoenix"@, "Shiva"@, "Twintania"@, "Zodiark"@, "Bismarck"@, "Ravana"@,
        "Sephirot"@, "Sophia"@, "Zurvan"@, "Aegis"@, "Atomos"@, "Carbuncle"@, "Garuda"@,
        "Gungnir"@, "Kujata"@, "Ramuh"@, "Tonberry"@, "Typhon"@, "Unicorn"@,
    ]);
}

/// Every option is required.
pub open spec fn all_options_required(cmds: Seq<CommandSpecView>) -> bool {
    forall|i: int, j: int|
        0 <= i < cmds.len() && 0 <= j < cmds[i].options.len() ==> #[trigger] cmds[i].options[j].required
}

/// Every option of every command the bot declares is required.
pub proof fn lemma_declared_options_required()
    ensures
        all_options_required(main_commands()),
        all_options_required(crate::voice_commands::voice_commands()),
        all_options_required(crate::music::music_commands()),
{
    let m = main_commands();
    assert(m[0].options.len() == 0);
    assert(m[1].options[0].required && m[1].options[1].required);
    assert(m[2].options[0].required);
    let v = crate::voice_commands::voice_commands();
    assert(v[0].options[0].required && v[1].options[0].required);
    assert(crate::music::music_commands()[0].options[0].required);
}

} // verus!
