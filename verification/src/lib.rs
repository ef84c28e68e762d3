//! Turn-taking dialogues between several language models.

pub mod app;
pub mod app_laws;
pub mod app_steps;
pub mod chat;
pub mod clock;
pub mod config;
pub mod controller;
pub mod conversation;
pub mod dialogue_laws;
pub mod dialogue_steps;
pub mod events;
pub mod messages;
pub mod overlay;
pub mod participant;
pub mod provider;
pub mod text;
pub mod turn_order;
pub mod view_laws;
