//! The configuration client: messages a configuration process exchanges with
//! the compositor, and the handles that build and decode them.

pub mod input;
pub mod msg;
pub mod pinnacle;
pub mod window;
