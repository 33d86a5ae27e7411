use vstd::prelude::*;

use crate::registry::{lookup, Registry};
use crate::ui::CommandSpec;

verus! {

/// A slash command of the bot: how it is registered with Discord.
pub trait CommandHandler {
    /// The command as it is registered.
    fn register(&self) -> CommandSpec;
}

/// The handlers of the registered slash commands, by command name.
pub struct CommandRegistry<H> {
    cmds: Registry<H>,
}

impl<H> View for CommandRegistry<H> {
    type V = Map<Seq<char>, H>;

    closed spec fn view(&self) -> Map<Seq<char>, H> {
        self.cmds@
    }
}

impl<H> CommandRegistry<H> {
    /// A registry with no command.
    pub fn new() -> (r: Self)
        ensures
            r@ == Map::<Seq<char>, H>::empty(),
    {
        CommandRegistry { cmds: Registry::new() }
    }

    /// Records the outcome of registering a global command with Discord.
    /// `created` is the name under which Discord created the command, or the
    /// error it answered. On success `handler` is registered under that name;
    /// an error is handed back and the registry stays as it was.
    pub fn register_global<E>(&mut self, created: Result<String, E>, handler: H) -> (res: Result<
        (),
        E,
    >)
        ensures
            match created {
                Ok(name) => res == Ok::<(), E>(()) && final(self)@ == old(self)@.insert(name@, handler),
                Err(e) => res == Err::<(), E>(e) && final(self)@ == old(self)@,
            },
    {
        match created {
            Ok(name) => {
                self.cmds.insert(name, handler);
                Ok(())
            },
            Err(err) => Err(err),
        }
    }

    /// The handler of the command named `cmd`, if one is registered.
    pub fn get_command_handler(&self, cmd: &str) -> (res: Option<&H>)
        ensures
            res matches Some(h) ==> lookup(self@, cmd@) == Some(*h),
            res is None <==> lookup(self@, cmd@) is None,
    {
        self.cmds.get(cmd)
    }
}

impl<H> Default for CommandRegistry<H> {
    fn default() -> (r: Self)
        ensures
            r@ == Map::<Seq<char>, H>::empty(),
    {
        CommandRegistry::new()
    }
}

} // verus!
