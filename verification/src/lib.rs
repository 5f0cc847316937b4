pub mod text;
pub mod lists;
pub mod clock;
pub mod codec;
pub mod protocol;
pub mod theme;
pub mod config;
pub mod state;
pub mod keymap;
pub mod home;
pub mod worktree;
pub mod ui;
pub mod discovery;
pub mod task_activity;
pub mod event_loop;
pub mod render;
