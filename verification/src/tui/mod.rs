pub mod helpers;
pub mod input_prompt;
pub mod screens;
pub mod stats;
pub mod theme;
pub mod memory_viewer_screen;
pub mod event_commands;
pub mod player_toggles;
pub mod er_toggles;
pub mod items_tab;
