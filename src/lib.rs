//! State, dispatch rules and display arithmetic of a terminal console that
//! watches and controls a background daemon over RPC.

pub mod model;
pub mod app;
pub mod events;
pub mod dispatch;
pub mod display;
