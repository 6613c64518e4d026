//! Verified core of the PUBG point-ranking desktop application.

pub mod engine;
pub mod error;
pub mod sort;
pub mod text;
pub mod parser;
pub mod runtime;
pub mod services;
pub mod platform;
pub mod repository;
pub mod pubg;
pub mod commands;
pub mod dto;
