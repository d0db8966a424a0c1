//! The capabilities of a widget, each for an application with a model of
//! type `M`.

use vstd::prelude::*;
use crate::handler::ActionHandler;
use crate::render::Cell;

verus! {

/// A widget that can be drawn.
pub trait Drawable<M> {
    /// What is worked out for the widget before it is drawn.
    type Plan;

    /// The cells to write when the widget is drawn by `plan` with its first
    /// cell at `(x_pos, y_pos)`, in a region of the given size.
    fn draw_at(
        &self,
        model: &M,
        plan: &Self::Plan,
        x_pos: usize,
        y_pos: usize,
        available_width: usize,
        available_height: usize,
    ) -> Vec<Cell>;

    /// Width of the widget in cells.
    fn width(&self) -> usize;

    /// Height of the widget in cells.
    fn height(&self) -> usize;
}

/// A widget that is offered input events of type `E`.
pub trait EventReceiver<M, E> {
    /// Offers `event` to the widget; returns whether the widget consumed it.
    fn handle_event(&mut self, model: &mut M, event: &E) -> bool;
}

/// A widget that follows the application's model.
pub trait Widget<M> {
    /// Brings the widget up to date with `model`.
    fn update(&mut self, model: &M);
}

/// A widget that sends actions to the application.
pub trait ActionSender<M> {
    /// The actions that the widget sends.
    type Action;

    /// The handlers that the widget takes.
    type Handler: ActionHandler<M, Self::Action>;

    /// Registers the handler that receives the widget's actions.
    fn set_action_handler(&mut self, handler: Self::Handler);

    /// Sends `action` to the registered handler.
    fn do_action(&mut self, model: &mut M, action: Self::Action);
}

} // verus!
