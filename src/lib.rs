//! A keyboard-navigable widget toolkit core: focus handling, layout,
//! animation and widget state machines, independent of any window system.

pub mod anim;
pub mod builders;
pub mod focus;
pub mod frame;
pub mod geometry;
pub mod gui;
pub mod layout;
pub mod theme;
pub mod widget;

pub use anim::closerize;
pub use focus::Focus;
pub use frame::WidgetRow;
pub use geometry::{Rect, SelectionWindow};
pub use gui::{Frame, Gui, GuiEvent, Tab};
pub use theme::{SelectionStyle, Theme};
pub use widget::{ActionKey, Decoration, Widget, WidgetState};
