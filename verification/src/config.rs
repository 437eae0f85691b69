//! Where the player message of each guild is remembered: the `command_id`
//! key of the guild's section in the bot's INI configuration.
use vstd::prelude::*;
use ini::Ini;
use crate::player::PlayerError;
use crate::text;
use crate::text::{parse_u64, u64_to_decimal};

verus! {

#[verifier::external_type_specification]
#[verifier::external_body]
pub struct ExIni(Ini);

/// What an INI document holds as far as named sections go: for each section
/// name and key, the value that `Ini::get_from(Some(section), key)` returns
/// (the first value of the key in the first section of that name).
pub uninterp spec fn ini_entries(ini: Ini) -> Map<(Seq<char>, Seq<char>), Seq<char>>;

/// `Ini::get_from(Some(section), key)`: the value of `key` in `section`, if
/// there is one. The contract claims that the call answers exactly with the
/// entry that `ini_entries` holds for the pair.
#[verifier::external_body]
fn ini_get_from<'a>(ini: &'a Ini, section: &str, key: &str) -> (r: Option<&'a str>)
    ensures
        r is Some <==> ini_entries(*ini).dom().contains((section@, key@)),
        r matches Some(v) ==> v@ == ini_entries(*ini)[(section@, key@)],
{
    ini.get_from(Some(section), key)
}

/// `Ini::set_to(Some(section), key, value)`: sets `key` to `value` in the
/// first section named `section`, creating the section when there is none and
/// dropping any other value the key had there. The contract claims that the
/// entry of the pair becomes `value` and every other entry stays as it was.
#[verifier::external_body]
fn ini_set_to(ini: &mut Ini, section: &str, key: &str, value: &str)
    ensures
        ini_entries(*final(ini)) == ini_entries(*old(ini)).insert((section@, key@), value@),
{
    ini.set_to(Some(section), key.to_string(), value.to_string())
}

/// The key under which the player message id is stored.
pub open spec fn player_key() -> Seq<char> {
    "command_id"@
}

/// The entry that holds the player message id of `guild`: the key
/// `command_id` in the section named by the guild id.
pub open spec fn player_entry(guild: u64) -> (Seq<char>, Seq<char>) {
    (text::decimal(guild as nat), player_key())
}

/// The player message id recorded for `guild`, or why there is none.
pub open spec fn recorded_player(
    entries: Map<(Seq<char>, Seq<char>), Seq<char>>,
    guild: u64,
) -> Result<u64, PlayerError> {
    if !entries.dom().contains(player_entry(guild)) {
        Err(PlayerError::NotRecorded)
    } else {
        match text::parse_u64_spec(entries[player_entry(guild)]) {
            Some(id) => Ok(id),
            None => Err(PlayerError::InvalidId),
        }
    }
}

/// The entries once `message` is recorded as the player message of `guild`.
pub open spec fn with_player(
    entries: Map<(Seq<char>, Seq<char>), Seq<char>>,
    guild: u64,
    message: u64,
) -> Map<(Seq<char>, Seq<char>), Seq<char>> {
    entries.insert(player_entry(guild), text::decimal(message as nat))
}

/// Reads the player message id of `guild` from the configuration.
pub fn player_message_id(config: &Ini, guild: u64) -> (r: Result<u64, PlayerError>)
    ensures
        r == recorded_player(ini_entries(*config), guild),
{
    let section = u64_to_decimal(guild);
    let key = "command_id";
    match ini_get_from(config, section.as_str(), key) {
        None => Err(PlayerError::NotRecorded),
        Some(stored) => match parse_u64(stored) {
            Some(id) => Ok(id),
            None => Err(PlayerError::InvalidId),
        },
    }
}

/// Records `message` as the player message of `guild`.
pub fn record_player_message(config: &mut Ini, guild: u64, message: u64)
    ensures
        ini_entries(*final(config)) == with_player(ini_entries(*old(config)), guild, message),
{
    let section = u64_to_decimal(guild);
    let value = u64_to_decimal(message);
    ini_set_to(config, section.as_str(), "command_id", value.as_str());
}

/// Once a player message is recorded for a guild, reading the guild's player
/// gives that message back.
pub proof fn lemma_record_then_lookup(
    entries: Map<(Seq<char>, Seq<char>), Seq<char>>,
    guild: u64,
    message: u64,
)
    ensures
        recorded_player(with_player(entries, guild, message), guild) == Ok::<u64, PlayerError>(
            message,
        ),
{
    text::lemma_parse_decimal_roundtrip(message);
}

/// Recording the player of one guild leaves the player of every other guild
/// as it was.
pub proof fn lemma_record_keeps_other_guilds(
    entries: Map<(Seq<char>, Seq<char>), Seq<char>>,
    guild: u64,
    message: u64,
    other: u64,
)
    requires
        other != guild,
    ensures
        recorded_player(with_player(entries, guild, message), other) == recorded_player(
            entries,
            other,
        ),
{
    text::lemma_decimal_injective(guild, other);
    assert(player_entry(guild) != player_entry(other));
}

} // verus!
