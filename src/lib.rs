//! Job orchestration for a multiplayer match server.
//!
//! The library holds the decisions of the service: how a match's seats are
//! filled, how an engine step is classified, how the pool of active jobs
//! reacts to each mailbox message, how broker messages are framed and read,
//! and which broker operations are performed with which options.
pub mod cli;
pub mod config;
pub mod controllers;
pub mod enrollment;
pub mod game;
pub mod game_pool;
pub mod jobs;
pub mod queue;
pub mod wire;
