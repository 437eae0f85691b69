//! The music commands in their second form: `/play <url>` and `/join <channel>`.
use vstd::prelude::*;
use crate::commands::{
    join_command, join_command_spec, play_command, play_command_spec, specs_view, CommandSpec,
    CommandSpecView,
};

verus! {

/// `/play <url>` and `/join <channel>`.
pub open spec fn voice_commands() -> Seq<CommandSpecView> {
    seq![play_command(), join_command()]
}

/// The music commands with their options: a required url for `/play` and a
/// required voice channel for `/join`.
pub fn register_music_cmds() -> (r: Vec<CommandSpec>)
    ensures
        specs_view(r@) == voice_commands(),
{
    let mut r = Vec::new();
    r.push(play_command_spec());
    r.push(join_command_spec());
    assert(specs_view(r@) =~= voice_commands());
    r
}

} // verus!
