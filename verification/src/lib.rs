//! Claim coordination for a watcher with many sessions: a doorkeeper that
//! lets each identifier through once, a cache of display names that fetches
//! each name once, the classification of outcomes, and log blocks that come
//! out in one piece.

pub mod cache;
pub mod config;
pub mod discord;
pub mod gate;
pub mod logging;
pub mod matcher;
pub mod model;
pub mod session;
pub mod text;
pub mod util;
pub mod webhook;
