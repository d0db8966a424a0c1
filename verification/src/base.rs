//! The delegation object: it keeps the handlers of a widget and runs them.

use vstd::prelude::*;
use crate::handler::{ActionHandler, UpdateHandler};

verus! {

/// Holds the update handler, of type `U`, and the action handler, of type
/// `A`, that were registered for a widget.
pub struct Base<U, A> {
    update_handler: Option<U>,
    action_handler: Option<A>,
}

impl<U, A> Base<U, A> {
    /// The registered update handler, if any.
    pub closed spec fn update_handler(&self) -> Option<U> {
        self.update_handler
    }

    /// The registered action handler, if any.
    pub closed spec fn action_handler(&self) -> Option<A> {
        self.action_handler
    }

    /// What an update may do to a widget: one run of the update handler,
    /// or nothing where none is registered.
    pub open spec fn update_effect<W, M>(&self, before: W, model: &M, after: W) -> bool where
        U: UpdateHandler<W, M>,
     {
        match self.update_handler() {
            Some(handler) => handler.effect(before, model, after),
            None => after == before,
        }
    }

    /// What an action may do to the model: one run of the action handler,
    /// or nothing where none is registered.
    pub open spec fn action_effect<M>(&self, before: M, action: (), after: M) -> bool where
        A: ActionHandler<M, ()>,
     {
        match self.action_handler() {
            Some(handler) => handler.effect(before, action, after),
            None => after == before,
        }
    }

    /// A delegation object without handlers.
    pub fn new() -> (base: Self)
        ensures
            base.update_handler() is None,
            base.action_handler() is None,
    {
        Base { update_handler: None, action_handler: None }
    }

    /// Registers `updater` in place of any earlier update handler.
    pub fn set_update_handler(&mut self, updater: U)
        ensures
            final(self).update_handler() == Some(updater),
            final(self).action_handler() == old(self).action_handler(),
    {
        self.update_handler = Some(updater);
    }

    /// Runs the update handler once on `widget` and `model`; does nothing
    /// where none is registered.
    pub fn update<W, M>(&self, widget: &mut W, model: &M) where U: UpdateHandler<W, M>
        ensures
            self.update_effect(*old(widget), model, *final(widget)),
    {
        match &self.update_handler {
            Some(handler) => {
                handler.update(widget, model);
            },
            None => {},
        }
    }

    /// Registers `handler` in place of any earlier action handler.
    pub fn set_action_handler(&mut self, handler: A)
        ensures
            final(self).action_handler() == Some(handler),
            final(self).update_handler() == old(self).update_handler(),
    {
        self.action_handler = Some(handler);
    }

    /// Runs the action handler once on `model` and `action`; does nothing
    /// where none is registered.
    pub fn do_action<M>(&self, model: &mut M, action: ()) where A: ActionHandler<M, ()>
        ensures
            self.action_effect(*old(model), action, *final(model)),
    {
        match &self.action_handler {
            Some(handler) => {
                handler.handle(model, action);
            },
            None => {},
        }
    }
}

} // verus!
