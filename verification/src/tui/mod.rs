//! The interactive terminal interface: screens, components and the state
//! machines behind them.

pub mod components;
pub mod keys;
pub mod layout;
pub mod events;
pub mod presenter;
pub mod app;
pub mod screens;
pub mod download_manager;
