use moujin::character::{get_ff_char, CharacterReply, FfChar};
use moujin::commands::{ChannelKind, OptionKind};
use moujin::handler::{get_handler, register_cmds, CommandRoute};
use moujin::player::ButtonPress;
use moujin::interaction::{no_command, no_component_command, ping, ChannelRef, OptionValue, ResponseKind};

fn text(s: &str) -> OptionValue {
    OptionValue::Text(s.to_string())
}

fn found(level: &str, title: &str, gc: &str) -> FfChar {
    FfChar {
        char_url: "https://eu.finalfantasyxiv.com/lodestone/character/1/".to_string(),
        img_url: "https://img/portrait.jpg".to_string(),
        title: title.to_string(),
        job_img: "https://img/job.png".to_string(),
        level: level.to_string(),
        grand_company: gc.to_string(),
    }
}

#[test]
fn ping_answers_pong() {
    let r = ping();
    assert_eq!(r.kind, ResponseKind::DeferredChannelMessageWithSource);
    assert_eq!(r.content, "`Mother Fu**ing Pong !`");
}

#[test]
fn unknown_commands_and_components() {
    let r = no_command();
    assert_eq!(r.kind, ResponseKind::DeferredChannelMessageWithSource);
    assert_eq!(r.content, "`No command found for this one.`");
    let r = no_component_command();
    assert_eq!(r.kind, ResponseKind::DeferredChannelMessageWithSource);
    assert_eq!(r.content, "`No command found for this one.`");
}

#[test]
fn routing_of_commands() {
    let h = get_handler();
    assert_eq!(h.route("ping"), CommandRoute::Ping);
    assert_eq!(h.route("character"), CommandRoute::Character);
    assert_eq!(h.route("join"), CommandRoute::Join);
    assert_eq!(h.route("play"), CommandRoute::Play);
    assert_eq!(h.route("stop"), CommandRoute::Unknown);
    assert_eq!(h.route("Ping"), CommandRoute::Unknown);
    assert_eq!(h.route(""), CommandRoute::Unknown);
}

#[test]
fn main_commands_are_declared() {
    let cmds = register_cmds();
    let names: Vec<&str> = cmds.iter().map(|c| c.name.as_str()).collect();
    assert_eq!(names, vec!["ping", "character", "join"]);
    assert_eq!(cmds[0].description, "An amazing command");
    assert!(cmds[0].options.is_empty());
    let character = &cmds[1];
    assert_eq!(character.description, "Get the datas of the character in the desired DataCenter");
    assert_eq!(character.options.len(), 2);
    let dc = &character.options[0];
    assert_eq!(dc.name, "datacenter");
    assert_eq!(dc.kind, OptionKind::String);
    assert!(dc.required);
    assert_eq!(dc.choices.len(), 27);
    assert_eq!(dc.choices[0].name, "Moogle, the best");
    assert_eq!(dc.choices[0].value, "Moogle");
    assert_eq!(dc.choices[26].name, "Unicorn");
    assert_eq!(character.options[1].name, "name");
    assert_eq!(character.options[1].description, "character's firstname and lastname");
    let join = &cmds[2];
    assert_eq!(join.description, "join a voice channel");
    assert_eq!(join.options[0].name, "channel");
    assert_eq!(join.options[0].kind, OptionKind::Channel);
    assert_eq!(join.options[0].channel_types, vec![ChannelKind::Voice]);
    assert!(join.options[0].required);
}

#[test]
fn datacenter_values_are_distinct() {
    let cmds = register_cmds();
    let choices = &cmds[1].options[0].choices;
    for i in 0..choices.len() {
        for j in 0..choices.len() {
            if i != j {
                assert_ne!(choices[i].value, choices[j].value);
            }
        }
    }
}

#[test]
fn music_commands_first_form() {
    let cmds = moujin::music::register_music_cmds();
    assert_eq!(cmds.len(), 1);
    assert_eq!(cmds[0].name, "play");
    assert_eq!(cmds[0].description, "Add a music to the queue and play it");
    assert_eq!(cmds[0].options.len(), 1);
    assert_eq!(cmds[0].options[0].name, "url");
    assert_eq!(cmds[0].options[0].description, "the youtube url of the video");
    assert_eq!(cmds[0].options[0].kind, OptionKind::String);
    assert!(cmds[0].options[0].required);
}

#[test]
fn routing_of_player_buttons() {
    let h = get_handler();
    assert_eq!(h.route_component("pause"), Some(ButtonPress::TogglePause));
    assert_eq!(h.route_component("skip"), Some(ButtonPress::Skip));
    assert_eq!(h.route_component("stop"), Some(ButtonPress::Stop));
    assert_eq!(h.route_component("Pause"), None);
    assert_eq!(h.route_component(""), None);
}

#[test]
fn music_commands_second_form() {
    let cmds = moujin::voice_commands::register_music_cmds();
    assert_eq!(cmds.len(), 2);
    assert_eq!(cmds[0].name, "play");
    assert_eq!(cmds[0].options.len(), 1);
    assert_eq!(cmds[0].options[0].name, "url");
    assert_eq!(cmds[0].options[0].description, "the youtube url of the video");
    assert_eq!(cmds[0].options[0].kind, OptionKind::String);
    assert_eq!(cmds[1].name, "join");
    assert_eq!(cmds[1].options[0].channel_types, vec![ChannelKind::Voice]);
}

#[test]
fn character_lookup_request() {
    let l = get_ff_char(&text("Moogle"), &text("Aerith Gainsborough"));
    assert_eq!(l.world, "Moogle");
    assert_eq!(l.name, "Aerith Gainsborough");
    assert_eq!(l.searching.kind, ResponseKind::ChannelMessageWithSource);
    assert_eq!(l.searching.content, "Searching : Aerith Gainsborough in Moogle ...");
    assert_eq!(l.url, "http://valentintahon.com/apiFfxiv?world=Moogle&name=Aerith%2BGainsborough");
}

#[test]
fn character_lookup_with_wrong_options() {
    let channel = OptionValue::Channel(ChannelRef { id: 1, name: None });
    let l = get_ff_char(&channel, &OptionValue::Other);
    assert_eq!(l.world, "please format correctly the name");
    assert_eq!(l.name, "please format correctly the name");
    assert_eq!(
        l.url,
        "http://valentintahon.com/apiFfxiv?world=please format correctly the name&name=please%2Bformat%2Bcorrectly%2Bthe%2Bname"
    );
}

#[test]
fn character_not_found_without_level() {
    let l = get_ff_char(&text("Omega"), &text("Nobody Here"));
    match l.reply(&found("", "Title", "Maelstrom")) {
        CharacterReply::NotFound(s) => assert_eq!(s, "No character found for Nobody Here in Omega"),
        CharacterReply::Profile(_) => panic!("expected no character"),
    }
}

#[test]
fn character_profile() {
    let l = get_ff_char(&text("Omega"), &text("Cid Garlond"));
    match l.reply(&found("90", "The Engineer", "Immortal Flames")) {
        CharacterReply::Profile(p) => {
            assert_eq!(p.title, "Cid Garlond");
            assert_eq!(p.description, "The Engineer");
            assert_eq!(p.content, "");
            assert_eq!(p.fields.len(), 2);
            assert_eq!(p.fields[0].name, "Level");
            assert_eq!(p.fields[0].value, "90");
            assert!(!p.fields[0].inline);
            assert_eq!(p.fields[1].name, "Grand Company");
            assert_eq!(p.fields[1].value, "Immortal Flames");
            assert!(!p.fields[1].inline);
            assert_eq!(p.image, "https://img/portrait.jpg");
            assert_eq!(p.url, "https://eu.finalfantasyxiv.com/lodestone/character/1/");
            assert_eq!(p.thumbnail, "https://img/job.png");
            assert_eq!(p.colour, 0x7289DA);
        }
        CharacterReply::NotFound(_) => panic!("expected a profile"),
    }
}

#[test]
fn character_profile_defaults() {
    let l = get_ff_char(&text("Omega"), &text("Cid"));
    match l.reply(&found("1", "", "")) {
        CharacterReply::Profile(p) => {
            assert_eq!(p.description, "No title set");
            assert_eq!(p.fields[1].value, "No Grand Company set");
        }
        CharacterReply::NotFound(_) => panic!("expected a profile"),
    }
}
