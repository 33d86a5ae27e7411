use vstd::prelude::*;

use crate::command::CommandRegistry;
use crate::component::ComponentRegistry;
use crate::registry::lookup;

verus! {

/// The state the bot shares between its event handlers: the registered
/// slash commands and the registered component callbacks.
pub struct BotData<C, K> {
    pub cmds: CommandRegistry<C>,
    pub components: ComponentRegistry<K>,
}

impl<C, K> BotData<C, K> {
    /// A bot with no command and no component callback.
    pub fn new() -> (r: Self)
        ensures
            r.cmds@ == Map::<Seq<char>, C>::empty(),
            r.components@ == Map::<Seq<char>, K>::empty(),
    {
        BotData { cmds: CommandRegistry::new(), components: ComponentRegistry::new() }
    }

    /// Records the outcome of registering a global command with Discord
    /// (see `CommandRegistry::register_global`); the component callbacks are
    /// left as they are.
    pub fn register_global_command<E>(&mut self, created: Result<String, E>, handler: C) -> (res:
        Result<(), E>)
        ensures
            match created {
                Ok(name) => res == Ok::<(), E>(()) && final(self).cmds@ == old(self).cmds@.insert(name@, handler),
                Err(e) => res == Err::<(), E>(e) && final(self).cmds@ == old(self).cmds@,
            },
            final(self).components@ == old(self).components@,
    {
        self.cmds.register_global(created, handler)
    }

    /// The callback of the component `comp_id`, if one is registered.
    pub fn get_component_handle(&self, comp_id: &str) -> (res: Option<&K>)
        ensures
            res matches Some(h) ==> lookup(self.components@, comp_id@) == Some(*h),
            res is None <==> lookup(self.components@, comp_id@) is None,
    {
        self.components.get_component_handle(comp_id)
    }
}

impl<C, K> Default for BotData<C, K> {
    fn default() -> (r: Self)
        ensures
            r.cmds@ == Map::<Seq<char>, C>::empty(),
            r.components@ == Map::<Seq<char>, K>::empty(),
    {
        BotData::new()
    }
}

} // verus!
