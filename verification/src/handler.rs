//! Callbacks that an application registers with a widget.

use vstd::prelude::*;
use std::marker::PhantomData;

verus! {

/// Brings a widget up to date with the application's model.
pub trait UpdateHandler<W, M> {
    /// What one run of the handler may do: `after` is a state in which it
    /// may leave a widget that it found as `before`, given `model`.  A
    /// handler that states nothing leaves every outcome open.
    open spec fn effect(&self, before: W, model: &M, after: W) -> bool {
        true
    }

    /// Runs the handler once on `widget`, which it may change, and `model`.
    fn update(&self, widget: &mut W, model: &M)
        ensures
            self.effect(*old(widget), model, *final(widget)),
    ;
}

/// Applies an action of a widget to the application's model.
pub trait ActionHandler<M, A> {
    /// What one run of the handler may do: `after` is a model that it may
    /// leave where it found `before`, given `action`.  A handler that
    /// states nothing leaves every outcome open.
    open spec fn effect(&self, before: M, action: A, after: M) -> bool {
        true
    }

    /// Runs the handler once on `model`, which it may change, and `action`.
    fn handle(&self, model: &mut M, action: A)
        ensures
            self.effect(*old(model), action, *final(model)),
    ;
}

/// The handler that does nothing.  It is the handler type of a widget for
/// which no other is named.
pub struct Idle;

impl<W, M> UpdateHandler<W, M> for Idle {
    open spec fn effect(&self, before: W, model: &M, after: W) -> bool {
        after == before
    }

    fn update(&self, widget: &mut W, model: &M) {
    }
}

impl<M, A> ActionHandler<M, A> for Idle {
    open spec fn effect(&self, before: M, action: A, after: M) -> bool {
        after == before
    }

    fn handle(&self, model: &mut M, action: A) {
    }
}

/// An update handler made of a closure that maps the state of a widget and
/// the model to the next state of the widget, and that can be called on
/// every widget and model.
#[verifier::reject_recursive_types(W)]
#[verifier::reject_recursive_types(M)]
pub struct UpdateFn<W, M, F: Fn(&W, &M) -> W> {
    f: F,
    types: PhantomData<(W, M)>,
}

impl<W, M, F: Fn(&W, &M) -> W> UpdateFn<W, M, F> {
    #[verifier::type_invariant]
    spec fn callable(self) -> bool {
        forall|widget: &W, model: &M| call_requires(self.f, (widget, model))
    }

    /// Wraps `f`, which must accept every widget and model.
    pub fn new(f: F) -> (handler: Self)
        requires
            forall|widget: &W, model: &M| call_requires(f, (widget, model)),
        ensures
            handler.closure() == f,
    {
        UpdateFn { f, types: PhantomData }
    }

    /// The closure that the handler runs.
    pub closed spec fn closure(self) -> F {
        self.f
    }
}

impl<W, M, F: Fn(&W, &M) -> W> UpdateHandler<W, M> for UpdateFn<W, M, F> {
    /// One call of the closure on `before` and `model` that returns `after`.
    open spec fn effect(&self, before: W, model: &M, after: W) -> bool {
        call_ensures(self.closure(), (&before, model), after)
    }

    /// Calls the closure once, on the widget as it is and `model`, and
    /// leaves the widget in the state that the closure returned.
    fn update(&self, widget: &mut W, model: &M) {
        proof {
            use_type_invariant(self);
        }
        let next = (self.f)(&*widget, model);
        *widget = next;
    }
}

/// An action handler made of a closure that maps the model and an action to
/// the next model, and that can be called on every model and action.
#[verifier::reject_recursive_types(M)]
#[verifier::reject_recursive_types(A)]
pub struct ActionFn<M, A, F: Fn(&M, A) -> M> {
    f: F,
    types: PhantomData<(M, A)>,
}

impl<M, A, F: Fn(&M, A) -> M> ActionFn<M, A, F> {
    #[verifier::type_invariant]
    spec fn callable(self) -> bool {
        forall|model: &M, action: A| call_requires(self.f, (model, action))
    }

    /// Wraps `f`, which must accept every model and action.
    pub fn new(f: F) -> (handler: Self)
        requires
            forall|model: &M, action: A| call_requires(f, (model, action)),
        ensures
            handler.closure() == f,
    {
        ActionFn { f, types: PhantomData }
    }

    /// The closure that the handler runs.
    pub closed spec fn closure(self) -> F {
        self.f
    }
}

impl<M, A, F: Fn(&M, A) -> M> ActionHandler<M, A> for ActionFn<M, A, F> {
    /// One call of the closure on `before` and `action` that returns `after`.
    open spec fn effect(&self, before: M, action: A, after: M) -> bool {
        call_ensures(self.closure(), (&before, action), after)
    }

    /// Calls the closure once, on the model as it is and `action`, and
    /// leaves the model as the closure returned it.
    fn handle(&self, model: &mut M, action: A) {
        proof {
            use_type_invariant(self);
        }
        let next = (self.f)(&*model, action);
        *model = next;
    }
}

} // verus!
