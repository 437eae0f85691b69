//! The music commands the bot registers when it is ready: `/play <url>`.
use vstd::prelude::*;
use crate::commands::{play_command, play_command_spec, specs_view, CommandSpec, CommandSpecView};

verus! {

/// The commands registered by this form: `/play <url>`.
pub open spec fn music_commands() -> Seq<CommandSpecView> {
    seq![play_command()]
}

/// The music commands the bot registers when it is ready: `/play` with its
/// required url.
pub fn register_music_cmds() -> (r: Vec<CommandSpec>)
    ensures
        specs_view(r@) == music_commands(),
{
    let mut r = Vec::new();
    r.push(play_command_spec());
    assert(specs_view(r@) =~= music_commands());
    r
}

} // verus!
