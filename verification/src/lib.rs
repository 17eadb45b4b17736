//! Recent-conversation review: picking an agent's recent messages and
//! assembling them into one transient review document.

pub mod draw;
pub mod geometry;
pub mod last;
pub mod message;
pub mod pick;
pub mod text;
