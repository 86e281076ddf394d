//! Finding songs in a catalog of rhythm-game charts, by identifier or by a
//! free-text query for the title; rating plays; and keeping the best plays of
//! a player, strongest first.
//!
//! Numbers that are written with a decimal point are held as integers:
//! difficulty constants in tenths, achievements in ten-thousandths of a
//! percent.

pub mod best_list;
pub mod catalog;
pub mod markdown;
pub mod normalizer;
pub mod numbers;
pub mod profile;
pub mod ranking;
pub mod rating;
pub mod record;
pub mod report;
pub mod resolver;
pub mod song;
pub mod tables;
pub mod text;
pub mod transfer;
pub mod width;
