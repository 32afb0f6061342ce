//! The markup of the control page.

pub mod button;
pub mod head;
pub mod mediainfo;
pub mod remote;

pub use button::Button;
pub use head::Head;
pub use remote::Remote;


