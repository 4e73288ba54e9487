//! The user-interface policy: what the windowing front end shows and sends.

pub mod frame;
pub mod input;
pub mod keyboard;
pub mod layout;
pub mod repeat;
pub mod settings;
pub mod tape_view;
pub mod theme;
