//! Control plane for head-to-head rock/paper/scissors matches: the matchmaking
//! queue, the game manager's match index, the per-match phase machine and the
//! decisions of the duplex session framework, each with its contract.

pub mod game;
pub mod id;
pub mod messages;
pub mod queue_protocol;
pub mod game_protocol;
pub mod matchmaking;
pub mod game_thread;
pub mod game_manager;
pub mod websocket;
pub mod queue_socket;
pub mod game_socket;
pub mod utility;
pub mod strategy;
pub mod scenario;
