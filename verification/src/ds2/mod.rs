pub mod hooks;
pub mod player;
pub mod target;
pub mod utility;
pub mod bonfires;
