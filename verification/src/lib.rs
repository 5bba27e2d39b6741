//! Vyv: keep-awake sessions, timers, usage statistics and the tray menu model.
pub mod awake;
pub mod battery_monitor;
pub mod cancel;
pub mod clamshell;
pub mod clock;
pub mod drive_alive;
pub mod process_monitor;
pub mod profiles;
pub mod simulation;
pub mod state;
pub mod stats;
pub mod text;
pub mod timer;
pub mod tray;
