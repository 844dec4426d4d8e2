//! Core logic of a small multiplayer world: player state and the
//! capture-radius collision test, the tagged message envelope exchanged
//! between client and server, the client's prediction-and-collision tick,
//! and the server's connection registry with its relay decisions.
pub mod message;
pub mod player;
pub mod relay;
pub mod world;
