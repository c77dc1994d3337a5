//! The shared context command handlers run against.

use vstd::prelude::*;
use crate::store::Storage;

verus! {

/// What a handler gets to work with: the store. The outbound REST client is
/// an external collaborator the core never calls at request time, so it
/// lives with the surrounding service, not here.
pub struct BotContext {
    pub store: Storage,
}

impl BotContext {
    pub fn new(store: Storage) -> (r: Self)
        ensures
            r.store == store,
    {
        BotContext { store }
    }
}

/// Typed access to one part of a context.
pub trait Get<T> {
    spec fn get_spec(&self) -> T;

    fn get(&self) -> (r: &T)
        ensures
            *r == self.get_spec(),
    ;
}

impl Get<Storage> for BotContext {
    open spec fn get_spec(&self) -> Storage {
        self.store
    }

    fn get(&self) -> (r: &Storage) {
        &self.store
    }
}

} // verus!
