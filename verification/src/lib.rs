//! Core of a small terminal todo list: the application state, the
//! two-mode input state machine that drives it, and the view model
//! that a renderer draws from.

pub mod input;
pub mod laws;
pub mod state;
pub mod view;

pub use input::FormAction;
pub use input::Key;
pub use input::handle_add_new;
pub use input::handle_key;
pub use input::step;
pub use state::AppState;
pub use state::Mode;
pub use state::TodoItem;
pub use view::Screen;
pub use view::render;
