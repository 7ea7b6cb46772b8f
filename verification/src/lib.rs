//! Backend data aggregator core: per-domain repositories that fetch upstream
//! collection data, build immutable snapshots with derived orderings, and
//! publish them through an atomically swappable store, coordinated by a
//! single-consumer job/event queue.

pub mod error;
pub mod bus;
pub mod events;
pub mod jobs;
pub mod keyed;
pub mod store;
pub mod fanout;
pub mod config;
pub mod games_repo;
pub mod lego_repo;
pub mod status_lol_repo;
pub mod ranking;
pub mod text;
pub mod games;
pub mod lego;
pub mod status;
pub mod about_repo;
pub mod faq_repo;
pub mod cdn;
pub mod data;
pub mod queries;
