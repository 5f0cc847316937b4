//! What holds of the dashboard's state across its operations.
pub mod attach;
pub mod choices;
pub mod health;
pub mod lines;
pub mod logs;
pub mod modals;
pub mod notices;
pub mod reports;
pub mod rows;
pub mod screen;
pub mod tabs;
