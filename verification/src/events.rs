//! What the bot does with the events the gateway delivers.
use vstd::prelude::*;

use crate::bot::BotData;
use crate::commands::embed_creator::{button_modal, opens_modal, EmbedButtonCallback};
use crate::registry::lookup;
use crate::text::{decimal, decimal_reads_back, decimal_text, is_numeral, numeral_value};
use crate::ui::ModalSpec;

verus! {

/// An interaction, by what the bot reads of it.
pub enum InteractionEvent {
    /// A modal was submitted.
    ModalSubmit,
    /// The slash command `name` was used.
    Command { name: String },
    /// The message component `custom_id` was clicked.
    Component { custom_id: String },
    /// Any other interaction.
    Other,
}

/// How the bot answers an interaction.
pub enum Reaction<'a, C> {
    /// Acknowledge it without a reply.
    Acknowledge,
    /// Run this command handler.
    Run(&'a C),
    /// Log that the command is unknown.
    UnrecognizedCommand,
    /// Answer with this modal.
    ShowModal(ModalSpec),
    /// Do nothing.
    Ignore,
}

/// Decides how `bot` answers `event`: a submitted modal is acknowledged, a
/// slash command runs the handler registered under its name, a click on one
/// of the embed creator's buttons opens that button's modal.
pub fn route_interaction<'a, C, K>(bot: &'a BotData<C, K>, event: &InteractionEvent) -> (r: Reaction<
    'a,
    C,
>)
    requires
        event matches InteractionEvent::Component { custom_id } ==> opens_modal(custom_id@),
    ensures
        match event {
            InteractionEvent::ModalSubmit => r is Acknowledge,
            InteractionEvent::Command { name } => match lookup(bot.cmds@, name@) {
                Some(h) => r matches Reaction::Run(x) && *x == h,
                None => r is UnrecognizedCommand,
            },
            InteractionEvent::Component { custom_id } => r matches Reaction::ShowModal(m) && m@
                == button_modal(custom_id@),
            InteractionEvent::Other => r is Ignore,
        },
{
    match event {
        InteractionEvent::ModalSubmit => Reaction::Acknowledge,
        InteractionEvent::Command { name } => match bot.cmds.get_command_handler(name.as_str()) {
            Some(handle) => Reaction::Run(handle),
            None => Reaction::UnrecognizedCommand,
        },
        InteractionEvent::Component { custom_id } => {
            let callback = EmbedButtonCallback;
            Reaction::ShowModal(callback.run(custom_id.as_str()))
        },
        InteractionEvent::Other => Reaction::Ignore,
    }
}

/// The log line of a message: who sent it, what it says, and where.
pub open spec fn message_log(
    author: Seq<char>,
    user_id: u64,
    content: Seq<char>,
    channel: Seq<char>,
) -> Seq<char> {
    author + "("@ + decimal(user_id as nat) + ") said: \""@ + content + "\" in channel "@ + channel
}

/// The log line of a message from `author` (whose user id is `user_id`)
/// saying `content` in the channel named `channel`.
pub fn message_log_line(author: &str, user_id: u64, content: &str, channel: &str) -> (line: String)
    ensures
        line@ == message_log(author@, user_id, content@, channel@),
{
    let mut line = String::from_str(author);
    line.append("(");
    let id = decimal_text(user_id);
    line.append(id.as_str());
    line.append(") said: \"");
    line.append(content);
    line.append("\" in channel ");
    line.append(channel);
    line
}


/// The log line names the sender by their full user id: the number between
/// the brackets after the author's name reads back as `user_id`.
pub proof fn message_log_names_the_user(
    author: Seq<char>,
    user_id: u64,
    content: Seq<char>,
    channel: Seq<char>,
)
    ensures
        exists|digits: Seq<char>|
            #![trigger is_numeral(digits)]
            is_numeral(digits) && numeral_value(digits) == user_id && message_log(
                author,
                user_id,
                content,
                channel,
            ) == author + "("@ + digits + ") said: \""@ + content + "\" in channel "@ + channel,
{
    decimal_reads_back(user_id as nat);
    assert(is_numeral(decimal(user_id as nat)));
}

} // verus!
