//! Core logic of a menu-bar companion that watches recent desktop activity,
//! decides when to speak, keeps a daily sleep rhythm and writes a diary.

pub mod text;
pub mod json;
pub mod ids;
pub mod models;
pub mod config;
pub mod clock;
pub mod logging;
pub mod agent;
pub mod rhythm;
pub mod llm;
pub mod prompts;
pub mod replies;
pub mod screenpipe;
pub mod phone;
pub mod db;
pub mod ipv4;
