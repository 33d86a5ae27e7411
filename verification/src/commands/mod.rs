pub mod embed_creator;
pub mod purge;
pub mod welcome_debug;

use vstd::prelude::*;

use crate::command::CommandHandler;
use crate::ui::CommandSpec;
use embed_creator::{embed_command, EmbedCreatorCommand};
use purge::{purge_command, PurgeCommand};
use welcome_debug::{debug_command, DebugWelcomeCommand};

verus! {

/// The global commands the bot registers when it connects, in the order it
/// registers them, each with the handler that runs it: `/debug` with
/// `debug_handler`, `/purge` with `purge_handler`, `/embed` with
/// `embed_handler`.
pub fn startup_commands<H>(debug_handler: H, purge_handler: H, embed_handler: H) -> (commands: Vec<
    (CommandSpec, H),
>)
    ensures
        commands@.map_values(|c: (CommandSpec, H)| c.0@) == seq![
            debug_command(),
            purge_command(),
            embed_command(),
        ],
        commands@.map_values(|c: (CommandSpec, H)| c.1) == seq![debug_handler, purge_handler, embed_handler],
{
    let mut commands: Vec<(CommandSpec, H)> = Vec::new();
    commands.push((DebugWelcomeCommand.register(), debug_handler));
    commands.push((PurgeCommand.register(), purge_handler));
    commands.push((EmbedCreatorCommand.register(), embed_handler));
    assert(commands@.map_values(|c: (CommandSpec, H)| c.0@) =~= seq![
        debug_command(),
        purge_command(),
        embed_command(),
    ]);
    assert(commands@.map_values(|c: (CommandSpec, H)| c.1) =~= seq![
        debug_handler,
        purge_handler,
        embed_handler,
    ]);
    commands
}

} // verus!
