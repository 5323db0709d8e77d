//! Health-check watchdog: configuration model, the reactor that turns probe
//! observations into notifications, and the notifier request builders.

pub mod cli;
pub mod config;
pub mod config_parser;
pub mod notifiers;
pub mod reactor;
pub mod validator;
pub mod watcher;
