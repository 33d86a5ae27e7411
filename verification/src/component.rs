use vstd::prelude::*;

use crate::registry::{lookup, Registry};

verus! {

/// The callbacks of message components (buttons), by component id.
pub struct ComponentRegistry<H> {
    handlers: Registry<H>,
}

impl<H> View for ComponentRegistry<H> {
    type V = Map<Seq<char>, H>;

    closed spec fn view(&self) -> Map<Seq<char>, H> {
        self.handlers@
    }
}

impl<H> ComponentRegistry<H> {
    /// A registry with no callback.
    pub fn new() -> (r: Self)
        ensures
            r@ == Map::<Seq<char>, H>::empty(),
    {
        ComponentRegistry { handlers: Registry::new() }
    }

    /// Registers `handle` as the callback of the component `comp_id`,
    /// replacing the one registered there before.
    pub fn register_component(&mut self, comp_id: &str, handle: H)
        ensures
            final(self)@ == old(self)@.insert(comp_id@, handle),
    {
        self.handlers.insert(String::from_str(comp_id), handle);
    }

    /// The callback of the component `comp_id`, if one is registered.
    pub fn get_component_handle(&self, comp_id: &str) -> (res: Option<&H>)
        ensures
            res matches Some(h) ==> lookup(self@, comp_id@) == Some(*h),
            res is None <==> lookup(self@, comp_id@) is None,
    {
        self.handlers.get(comp_id)
    }
}

impl<H> Default for ComponentRegistry<H> {
    fn default() -> (r: Self)
        ensures
            r@ == Map::<Seq<char>, H>::empty(),
    {
        ComponentRegistry::new()
    }
}

} // verus!
