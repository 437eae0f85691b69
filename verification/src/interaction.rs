//! What a slash command hands the bot and the plain replies it sends back.
use vstd::prelude::*;

verus! {

/// How an interaction is answered.
#[derive(Debug, Clone, Copy, PartialEq, Eq)]
pub enum ResponseKind {
    /// A message posted in the channel at once.
    ChannelMessageWithSource,
    /// A "thinking" answer whose message follows later.
    DeferredChannelMessageWithSource,
    /// An acknowledgement of a button press that posts nothing.
    DeferredUpdateMessage,
}

/// A first answer to an interaction: its kind and the text of its message.
pub struct InteractionReply {
    pub kind: ResponseKind,
    pub content: String,
}

pub struct InteractionReplyView {
    pub kind: ResponseKind,
    pub content: Seq<char>,
}

impl View for InteractionReply {
    type V = InteractionReplyView;

    open spec fn view(&self) -> InteractionReplyView {
        InteractionReplyView { kind: self.kind, content: self.content@ }
    }
}

/// A channel picked as the value of a command option.
pub struct ChannelRef {
    pub id: u64,
    pub name: Option<String>,
}

/// The resolved value of a command option.
pub enum OptionValue {
    /// A string value.
    Text(String),
    /// A channel.
    Channel(ChannelRef),
    /// Any other kind of value (user, role, number, ...).
    Other,
}

pub enum OptionValueView {
    Text(Seq<char>),
    Channel(u64, Option<Seq<char>>),
    Other,
}

impl View for OptionValue {
    type V = OptionValueView;

    open spec fn view(&self) -> OptionValueView {
        match self {
            OptionValue::Text(s) => OptionValueView::Text(s@),
            OptionValue::Channel(c) => OptionValueView::Channel(
                c.id,
                match c.name {
                    Some(n) => Some(n@),
                    None => None,
                },
            ),
            OptionValue::Other => OptionValueView::Other,
        }
    }
}

/// A reply built from a kind and a text.
pub open spec fn reply_view(kind: ResponseKind, content: Seq<char>) -> InteractionReplyView {
    InteractionReplyView { kind, content }
}

/// The answer to `/ping`.
pub fn ping() -> (r: InteractionReply)
    ensures
        r@ == reply_view(
            ResponseKind::DeferredChannelMessageWithSource,
            "`Mother Fu**ing Pong !`"@,
        ),
{
    InteractionReply {
        kind: ResponseKind::DeferredChannelMessageWithSource,
        content: String::from_str("`Mother Fu**ing Pong !`"),
    }
}

/// The answer to a slash command the bot has no handler for.
pub fn no_command() -> (r: InteractionReply)
    ensures
        r@ == reply_view(
            ResponseKind::DeferredChannelMessageWithSource,
            "`No command found for this one.`"@,
        ),
{
    InteractionReply {
        kind: ResponseKind::DeferredChannelMessageWithSource,
        content: String::from_str("`No command found for this one.`"),
    }
}

/// The answer to a message component (button) the bot has no handler for.
pub fn no_component_command() -> (r: InteractionReply)
    ensures
        r@ == reply_view(
            ResponseKind::DeferredChannelMessageWithSource,
            "`No command found for this one.`"@,
        ),
{
    InteractionReply {
        kind: ResponseKind::DeferredChannelMessageWithSource,
        content: String::from_str("`No command found for this one.`"),
    }
}

} // verus!
