//! A flexible structure for user interactions,
//! to be used in window frameworks and widget libraries.

pub mod controller;
pub mod event_id;
pub mod generic_event;
pub mod input;
pub mod keyboard;
pub mod laws;
pub mod mouse;
pub mod number;
pub mod payload;
pub mod resize;
pub mod text;
pub mod touch;

pub use controller::ControllerAxisArgs;
pub use controller::ControllerButton;
pub use event_id::EventId;
pub use generic_event::GenericEvent;
pub use input::Button;
pub use input::Input;
pub use input::Motion;
pub use keyboard::Key;
pub use mouse::MouseButton;
pub use mouse::MouseCursorEvent;
pub use mouse::MouseRelativeEvent;
pub use mouse::MouseScrollEvent;
pub use number::F64Bits;
pub use payload::Payload;
pub use resize::ResizeEvent;
pub use text::TextEvent;
pub use touch::Touch;
pub use touch::TouchArgs;
