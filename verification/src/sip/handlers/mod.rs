pub mod calls;
pub mod command;
pub mod events;
pub mod media;
