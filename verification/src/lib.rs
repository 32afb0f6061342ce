//! A remote control for the media player of a desktop: the markup of the
//! control page, the messages that the page sends back over its websocket,
//! and what the desktop is asked to do for each of them.

pub mod frontend;
pub mod keyboard;
pub mod markup;
pub mod mediainfo;
pub mod message;

pub use frontend::{Button, Head, Remote};
pub use keyboard::{KeyCode, KeyStroke};
pub use message::{Command, JsonMember, MessageAction, MessageError, MessageFields};
