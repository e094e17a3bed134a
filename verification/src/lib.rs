//! The coordination core of a desktop assistant that chats with a local
//! language model, finds images on disk, and labels and searches them with a
//! vision model.
//!
//! The library decides; its host acts. Every user action and every outcome
//! of background work reaches the library as an event or a call, and every
//! handler answers with the list of effects that the host is to perform:
//! events to put on the bus, requests to send to the inference server, files
//! to read. Each handler's contract says exactly what the state is
//! afterwards and which effects are asked for.

pub mod agents;
pub mod app;
pub mod app_state;
pub mod components;
pub mod config;
pub mod effects;
pub mod enums;
pub mod ollama_state;
pub mod text;
pub mod tools;
pub mod utils;
