//! The verified core of a Discord bot's backend service: credit accounts,
//! the weekly lottery, chat-context retrieval, the hangman mini-game, login
//! and token checks, the coupon feed, and the reminder schedule. The HTTP
//! server, the database and the webhooks live outside and call in.

pub mod auth;
pub mod config;
pub mod credit;
pub mod dialog;
pub mod discord;
pub mod errors;
pub mod files;
pub mod hangman;
pub mod ids;
pub mod lottery;
pub mod message;
pub mod numparse;
pub mod records;
pub mod roll;
pub mod schedule;
pub mod sortpairs;
pub mod strutil;
pub mod swc;
pub mod textops;
pub mod timefmt;
