//! A horizontal progress bar for character-cell terminals.
//!
//! The bar shows where a value lies between two bounds as a run of full
//! blocks followed by one glyph that fills its cell in eighths.
//!
//! The library lays a bar out from a fill plan: the number of full cells
//! and the fill level of the cell after them.  It does not compute in
//! floating point, so a fill that is worked out in floating point comes
//! from the caller as a plan.  The fill that the library itself computes is
//! exact, over fractions of integers; a floating-point fill rounds at
//! every step and can differ from it.

pub mod glyph;
pub mod rational;
pub mod state;
pub mod fill;
pub mod render;
pub mod handler;
pub mod base;
pub mod traits;
pub mod progress;

pub use base::Base;
pub use fill::FillPlan;
pub use glyph::{get_sym, FULL_BLOCK};
pub use handler::{ActionFn, ActionHandler, Idle, UpdateFn, UpdateHandler};
pub use progress::Progress;
pub use render::Cell;
pub use state::ProgressState;
pub use traits::{ActionSender, Drawable, EventReceiver, Widget};
