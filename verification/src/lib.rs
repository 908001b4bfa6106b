//! Core logic of a Telegram bot that shows university group timetables.
pub mod json;
pub mod text;
pub mod schedule;
pub mod service;
pub mod keyboard;
pub mod models;
pub mod bot;
