//! Verified decision logic of the stepflow workflow gateway: request
//! handling rules, the hooks that turn engine events into persistence,
//! UI and metric actions, the batching dispatcher, and the text formats
//! (query parameters, JSON framing) that those rules rely on.

pub mod json;
pub mod text;
pub mod ids;
pub mod time;
pub mod entities;
pub mod error;
pub mod frb;
pub mod dto;
pub mod service;
pub mod event;
pub mod hooks;
pub mod routes;
pub mod runner;
pub mod tool_worker;
