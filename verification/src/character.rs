//! `/character`: looks a Final Fantasy XIV character up on a data center and
//! shows what the lookup service knows of it.
use vstd::prelude::*;
use crate::interaction::{
    reply_view, InteractionReply, InteractionReplyView, OptionValue, OptionValueView, ResponseKind,
};
use crate::text;
use crate::text::encode_spaces;

verus! {

/// A character as the lookup service describes it.
pub struct FfChar {
    pub char_url: String,
    pub img_url: String,
    pub title: String,
    pub job_img: String,
    pub level: String,
    pub grand_company: String,
}

pub struct FfCharView {
    pub char_url: Seq<char>,
    pub img_url: Seq<char>,
    pub title: Seq<char>,
    pub job_img: Seq<char>,
    pub level: Seq<char>,
    pub grand_company: Seq<char>,
}

impl View for FfChar {
    type V = FfCharView;

    open spec fn view(&self) -> FfCharView {
        FfCharView {
            char_url: self.char_url@,
            img_url: self.img_url@,
            title: self.title@,
            job_img: self.job_img@,
            level: self.level@,
            grand_company: self.grand_company@,
        }
    }
}

/// A lookup about to be made: the data center, the character's name, the
/// message that announces the search and the address of the lookup service.
pub struct CharacterLookup {
    pub world: String,
    pub name: String,
    pub searching: InteractionReply,
    pub url: String,
}

pub struct CharacterLookupView {
    pub world: Seq<char>,
    pub name: Seq<char>,
    pub searching: InteractionReplyView,
    pub url: Seq<char>,
}

impl View for CharacterLookup {
    type V = CharacterLookupView;

    open spec fn view(&self) -> CharacterLookupView {
        CharacterLookupView {
            world: self.world@,
            name: self.name@,
            searching: self.searching@,
            url: self.url@,
        }
    }
}

/// A field of an embed: its name, its value and whether it stands beside
/// the previous field.
pub struct EmbedField {
    pub name: String,
    pub value: String,
    pub inline: bool,
}

pub struct EmbedFieldView {
    pub name: Seq<char>,
    pub value: Seq<char>,
    pub inline: bool,
}

impl View for EmbedField {
    type V = EmbedFieldView;

    open spec fn view(&self) -> EmbedFieldView {
        EmbedFieldView { name: self.name@, value: self.value@, inline: self.inline }
    }
}

/// The message that shows a character: its text and its embed.
pub struct CharacterProfile {
    pub content: String,
    pub title: String,
    pub description: String,
    pub fields: Vec<EmbedField>,
    pub image: String,
    pub url: String,
    pub thumbnail: String,
    /// The embed's colour as `0xRRGGBB`.
    pub colour: u32,
}

pub struct CharacterProfileView {
    pub content: Seq<char>,
    pub title: Seq<char>,
    pub description: Seq<char>,
    pub fields: Seq<EmbedFieldView>,
    pub image: Seq<char>,
    pub url: Seq<char>,
    pub thumbnail: Seq<char>,
    pub colour: u32,
}

impl View for CharacterProfile {
    type V = CharacterProfileView;

    open spec fn view(&self) -> CharacterProfileView {
        CharacterProfileView {
            content: self.content@,
            title: self.title@,
            description: self.description@,
            fields: self.fields@.map_values(|f: EmbedField| f@),
            image: self.image@,
            url: self.url@,
            thumbnail: self.thumbnail@,
            colour: self.colour,
        }
    }
}

/// Discord's blurple, `(114, 137, 218)`, the colour of a character's embed.
pub open spec fn blurple_rgb() -> u32 {
    0x7289DA
}

/// serenity's `Colour::BLURPLE` (`serenity::utils::Colour`, a tuple struct
/// around its `0xRRGGBB` value), as that value: the source defines it as
/// `Colour(0x7289DA)`.
#[verifier::external_body]
fn blurple() -> (c: u32)
    ensures
        c == blurple_rgb(),
{
    serenity::utils::Colour::BLURPLE.0
}

/// How the search message is finally edited.
pub enum CharacterReply {
    /// The service knows no such character: the message says so.
    NotFound(String),
    /// The message is replaced by the character's embed.
    Profile(CharacterProfile),
}

pub enum CharacterReplyView {
    NotFound(Seq<char>),
    Profile(CharacterProfileView),
}

impl View for CharacterReply {
    type V = CharacterReplyView;

    open spec fn view(&self) -> CharacterReplyView {
        match self {
            CharacterReply::NotFound(s) => CharacterReplyView::NotFound(s@),
            CharacterReply::Profile(p) => CharacterReplyView::Profile(p@),
        }
    }
}

/// The text taken from an option: its string, or a request to format it
/// when it is not a string.
pub open spec fn option_text(v: OptionValueView) -> Seq<char> {
    match v {
        OptionValueView::Text(s) => s,
        _ => "please format correctly the name"@,
    }
}

/// The message that announces a search.
pub open spec fn searching_text(name: Seq<char>, world: Seq<char>) -> Seq<char> {
    "Searching : "@ + name + " in "@ + world + " ..."@
}

/// The address of the lookup service for a character, spaces of the name
/// written as `%2B`.
pub open spec fn lookup_url(world: Seq<char>, name: Seq<char>) -> Seq<char> {
    "http://valentintahon.com/apiFfxiv?world="@ + world + "&name="@ + text::plus_encode(name)
}

/// The lookup for the options `world` and `name`.
pub open spec fn lookup_of(world: OptionValueView, name: OptionValueView) -> CharacterLookupView {
    let w = option_text(world);
    let n = option_text(name);
    CharacterLookupView {
        world: w,
        name: n,
        searching: reply_view(ResponseKind::ChannelMessageWithSource, searching_text(n, w)),
        url: lookup_url(w, n),
    }
}

/// What the search message becomes once the service described `found`.
pub open spec fn reply_of(lookup: CharacterLookupView, found: FfCharView) -> CharacterReplyView {
    if found.level.len() == 0 {
        CharacterReplyView::NotFound(
            "No character found for "@ + lookup.name + " in "@ + lookup.world,
        )
    } else {
        CharacterReplyView::Profile(
            CharacterProfileView {
                content: Seq::empty(),
                title: lookup.name,
                description: if found.title.len() != 0 {
                    found.title
                } else {
                    "No title set"@
                },
                fields: seq![
                    EmbedFieldView { name: "Level"@, value: found.level, inline: false },
                    EmbedFieldView {
                        name: "Grand Company"@,
                        value: if found.grand_company.len() != 0 {
                            found.grand_company
                        } else {
                            "No Grand Company set"@
                        },
                        inline: false,
                    },
                ],
                image: found.img_url,
                url: found.char_url,
                thumbnail: found.job_img,
                colour: blurple_rgb(),
            },
        )
    }
}

/// The search asks the service for the data center and the name that were
/// given, in that order, with the spaces of the name written `%2B`, and the
/// search message names the character and then the data center. An option
/// that is not a string counts as "please format correctly the name".
pub proof fn lemma_lookup_asks_for_given_character(world: OptionValueView, name: OptionValueView)
    ensures
        world matches OptionValueView::Text(w) ==> lookup_of(world, name).world == w,
        name matches OptionValueView::Text(n) ==> lookup_of(world, name).name == n,
        !(world is Text) ==> lookup_of(world, name).world == "please format correctly the name"@,
        !(name is Text) ==> lookup_of(world, name).name == "please format correctly the name"@,
        lookup_of(world, name).url == "http://valentintahon.com/apiFfxiv?world="@ + lookup_of(
            world,
            name,
        ).world + "&name="@ + text::plus_encode(lookup_of(world, name).name),
        lookup_of(world, name).searching.kind == ResponseKind::ChannelMessageWithSource,
        lookup_of(world, name).searching.content == "Searching : "@ + lookup_of(world, name).name
            + " in "@ + lookup_of(world, name).world + " ..."@,
{
}

/// What the service's answer turns into. A character without a level is not
/// found, and the message names the character and the data center searched.
/// Otherwise the embed, under the searched name, shows the character's title
/// ("No title set" only when it has none), its level and its Grand Company
/// ("No Grand Company set" only when it has none) as two fields one under
/// the other, its portrait, its page and its job icon, in blurple, with no
/// text beside it.
pub proof fn lemma_reply_shows_found_character(lookup: CharacterLookupView, found: FfCharView)
    ensures
        found.level.len() == 0 ==> reply_of(lookup, found) == CharacterReplyView::NotFound(
            "No character found for "@ + lookup.name + " in "@ + lookup.world,
        ),
        found.level.len() != 0 ==> (reply_of(lookup, found) matches CharacterReplyView::Profile(p)
            && {
            &&& p.content.len() == 0
            &&& p.title == lookup.name
            &&& (found.title.len() != 0 ==> p.description == found.title)
            &&& (found.title.len() == 0 ==> p.description == "No title set"@)
            &&& p.fields.len() == 2
            &&& p.fields[0].name == "Level"@
            &&& p.fields[0].value == found.level
            &&& !p.fields[0].inline
            &&& p.fields[1].name == "Grand Company"@
            &&& (found.grand_company.len() != 0 ==> p.fields[1].value == found.grand_company)
            &&& (found.grand_company.len() == 0 ==> p.fields[1].value == "No Grand Company set"@)
            &&& !p.fields[1].inline
            &&& p.image == found.img_url
            &&& p.url == found.char_url
            &&& p.thumbnail == found.job_img
            &&& p.colour == 0x7289DAu32
        }),
{
}

fn option_string(v: &OptionValue) -> (s: String)
    ensures
        s@ == option_text(v@),
{
    match v {
        OptionValue::Text(s) => s.clone(),
        _ => String::from_str("please format correctly the name"),
    }
}

/// Prepares `/character`: the data center and name taken from the options,
/// the message announcing the search and the address to ask.
pub fn get_ff_char(world: &OptionValue, name: &OptionValue) -> (r: CharacterLookup)
    ensures
        r@ == lookup_of(world@, name@),
{
    let world_req = option_string(world);
    let name_req = option_string(name);
    let mut searching = String::from_str("Searching : ");
    searching.append(name_req.as_str());
    searching.append(" in ");
    searching.append(world_req.as_str());
    searching.append(" ...");
    let mut url = String::from_str("http://valentintahon.com/apiFfxiv?world=");
    url.append(world_req.as_str());
    url.append("&name=");
    url.append(encode_spaces(name_req.as_str()).as_str());
    CharacterLookup {
        world: world_req,
        name: name_req,
        searching: InteractionReply { kind: ResponseKind::ChannelMessageWithSource, content: searching },
        url,
    }
}

fn is_empty_text(s: &String) -> (r: bool)
    ensures
        r == (s@.len() == 0),
{
    s.as_str().unicode_len() == 0
}

impl CharacterLookup {
    /// What the search message becomes once the service described `found`:
    /// a "not found" text when the character has no level, else its embed.
    pub fn reply(&self, found: &FfChar) -> (r: CharacterReply)
        ensures
            r@ == reply_of(self@, found@),
    {
        if is_empty_text(&found.level) {
            let mut s = String::from_str("No character found for ");
            s.append(self.name.as_str());
            s.append(" in ");
            s.append(self.world.as_str());
            CharacterReply::NotFound(s)
        } else {
            let description = if !is_empty_text(&found.title) {
                found.title.clone()
            } else {
                String::from_str("No title set")
            };
            let grand_company = if !is_empty_text(&found.grand_company) {
                found.grand_company.clone()
            } else {
                String::from_str("No Grand Company set")
            };
            let mut fields: Vec<EmbedField> = Vec::new();
            fields.push(
                EmbedField {
                    name: String::from_str("Level"),
                    value: found.level.clone(),
                    inline: false,
                },
            );
            fields.push(
                EmbedField { name: String::from_str("Grand Company"), value: grand_company, inline: false },
            );
            let profile = CharacterProfile {
                content: String::new(),
                title: self.name.clone(),
                description,
                fields,
                image: found.img_url.clone(),
                url: found.char_url.clone(),
                thumbnail: found.job_img.clone(),
                colour: blurple(),
            };
            assert(profile@.fields =~= reply_of(self@, found@)->Profile_0.fields);
            CharacterReply::Profile(profile)
        }
    }
}

} // verus!
