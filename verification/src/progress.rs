//! The progress bar widget.

use vstd::prelude::*;
use std::marker::PhantomData;
use crate::base::Base;
use crate::fill::FillPlan;
use crate::handler::{ActionHandler, Idle, UpdateHandler};
use crate::render::Cell;
use crate::state::ProgressState;
use crate::traits::{ActionSender, Drawable, EventReceiver, Widget};

verus! {

/// A horizontal progress bar in an application with a model of type `M`.
///
/// The widget owns its state and its delegation object.  Its update handler
/// is of type `U` and works on the state alone; its action handler is of
/// type `A`.
pub struct Progress<M, U = Idle, A = Idle> {
    base: Base<U, A>,
    state: ProgressState,
    model: PhantomData<M>,
}

impl<M, U, A> View for Progress<M, U, A> {
    type V = ProgressState;

    closed spec fn view(&self) -> ProgressState {
        self.state
    }
}

impl<M, U: UpdateHandler<ProgressState, M>, A: ActionHandler<M, ()>> Progress<M, U, A> {
    /// The delegation object of the widget.
    pub closed spec fn base(&self) -> Base<U, A> {
        self.base
    }

    /// A bar that is half full, ten cells long, without handlers.
    pub fn new() -> (progress: Self)
        ensures
            progress@ == (ProgressState { value: 50, min: 0, max: 100, width: 10 }),
            progress.base().update_handler() is None,
            progress.base().action_handler() is None,
    {
        Progress { base: Base::new(), state: ProgressState::new(), model: PhantomData }
    }

    /// Registers the handler that `update` runs.
    pub fn set_update_handler(&mut self, updater: U)
        ensures
            final(self)@ == old(self)@,
            final(self).base().update_handler() == Some(updater),
            final(self).base().action_handler() == old(self).base().action_handler(),
    {
        self.base.set_update_handler(updater);
    }

    /// Sets the value at which the bar is empty.
    pub fn set_min(&mut self, min: i64)
        ensures
            final(self)@ == (ProgressState { min: min, ..old(self)@ }),
            final(self).base() == old(self).base(),
    {
        self.state.min = min;
    }

    /// Sets the value at which the bar is full.
    pub fn set_max(&mut self, max: i64)
        ensures
            final(self)@ == (ProgressState { max: max, ..old(self)@ }),
            final(self).base() == old(self).base(),
    {
        self.state.max = max;
    }

    /// Sets the current position.
    pub fn set_value(&mut self, value: i64)
        ensures
            final(self)@ == (ProgressState { value: value, ..old(self)@ }),
            final(self).base() == old(self).base(),
    {
        self.state.value = value;
    }

    /// The state of the bar.
    pub fn state(&self) -> (state: ProgressState)
        ensures
            state == self@,
    {
        self.state
    }
}

impl<M, U: UpdateHandler<ProgressState, M>, A: ActionHandler<M, ()>> Drawable<M> for Progress<
    M,
    U,
    A,
> {
    type Plan = FillPlan;

    /// The cells of the bar, filled as `plan` says, with its first glyph at
    /// `(x_pos, y_pos)`: the full cells of the plan, then the glyph of its
    /// fill level unless the full cells reach beyond column `width`.  The
    /// fill is the caller's; the size of the region is not used, and the
    /// bar is not clipped to it.
    fn draw_at(
        &self,
        model: &M,
        plan: &FillPlan,
        x_pos: usize,
        y_pos: usize,
        available_width: usize,
        available_height: usize,
    ) -> (cells: Vec<Cell>)
        ensures
            cells@ == plan.cells_at(self@.width, x_pos, y_pos),
    {
        plan.cells(self.state.width, x_pos, y_pos)
    }

    /// The configured length of the bar.
    fn width(&self) -> (width: usize)
        ensures
            width == self@.width,
    {
        self.state.width
    }

    /// A bar is one cell high.
    fn height(&self) -> (height: usize)
        ensures
            height == 1,
    {
        1
    }
}

impl<M, E, U: UpdateHandler<ProgressState, M>, A: ActionHandler<M, ()>> EventReceiver<
    M,
    E,
> for Progress<M, U, A> {
    /// Declines every event and changes nothing.
    fn handle_event(&mut self, model: &mut M, event: &E) -> (handled: bool)
        ensures
            !handled,
            *final(self) == *old(self),
            *final(model) == *old(model),
    {
        false
    }
}

impl<M, U: UpdateHandler<ProgressState, M>, A: ActionHandler<M, ()>> Widget<M> for Progress<
    M,
    U,
    A,
> {
    /// Runs the update handler once on the state of the bar and `model`;
    /// does nothing where none is registered.
    fn update(&mut self, model: &M)
        ensures
            final(self).base() == old(self).base(),
            old(self).base().update_effect(old(self)@, model, final(self)@),
    {
        self.base.update(&mut self.state, model);
    }
}

impl<M, U: UpdateHandler<ProgressState, M>, A: ActionHandler<M, ()>> ActionSender<
    M,
> for Progress<M, U, A> {
    type Action = ();

    type Handler = A;

    /// Registers the handler that `do_action` runs.
    fn set_action_handler(&mut self, handler: A)
        ensures
            final(self)@ == old(self)@,
            final(self).base().action_handler() == Some(handler),
            final(self).base().update_handler() == old(self).base().update_handler(),
    {
        self.base.set_action_handler(handler);
    }

    /// Runs the action handler once on `model`; does nothing where none is
    /// registered.  The widget stays as it is.
    fn do_action(&mut self, model: &mut M, action: ())
        ensures
            *final(self) == *old(self),
            old(self).base().action_effect(*old(model), action, *final(model)),
    {
        self.base.do_action(model, action);
    }
}

/// Drawing reads nothing but the width of the bar, the plan and the
/// position: two bars of one width, drawn by one plan at one position, show
/// the same cells, whatever state and handlers they hold and whatever
/// region they are given.  So two draws with no change in between produce
/// the same glyphs.
pub proof fn lemma_draw_repeatable<M, U, A>(
    first: Progress<M, U, A>,
    second: Progress<M, U, A>,
    plan: FillPlan,
    x: usize,
    y: usize,
)
    requires
        first@.width == second@.width,
    ensures
        plan.glyphs(first@.width) == plan.glyphs(second@.width),
        plan.cells_at(first@.width, x, y) == plan.cells_at(second@.width, x, y),
{
}

} // verus!
